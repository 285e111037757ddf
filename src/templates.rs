//! The starter program written into a scratch file for each language.
use vstd::prelude::*;

verus! {

pub const GO: &'static str = r#"
package main 

import "fmt"

func main() {
    fmt.Println("Hello, World from GO!")
}
"#;

pub const PYTHON: &'static str = r#"
print("Hello, World from PYTHON!")
"#;

pub const RUST: &'static str = r#"
fn main() {
    println!("Hello, World from RUST!");
}
"#;

pub const NODE: &'static str = r#"
console.log("Hello, World from NODE!");
"#;

pub const BASH: &'static str = r#"
echo "Hello, World from BASH!"
"#;

pub const PERL: &'static str = r#"
print "Hello, World from PERL!\n";
"#;

pub const RUBY: &'static str = r#"
puts "Hello, World from RUBY!"
"#;

pub const C: &'static str = r#"
#include <stdio.h>

int main() {
    printf("Hello, World from C!\n");
    return 0;
}
"#;

pub const CPP: &'static str = r#"
#include <iostream>

int main() {
    std::cout << "Hello, World from CPP!" << std::endl;
    return 0;
}
"#;

pub const PHP: &'static str = r#"
<?php

echo "Hello, World from PHP!\n";

?>
"#;

pub const JAVA: &'static str = r#"
public class Main {
    public static void main(String[] args) {
        System.out.println("Hello, World from JAVA!");
    }
}
"#;

pub const SWIFT: &'static str = r#"
print("Hello, World from SWIFT!")
"#;

pub const SCALA: &'static str = r#"
object Main {
    def main(args: Array[String]): Unit = {
        println("Hello, World from SCALA!")
    }
}
"#;

pub const CSHARP: &'static str = r#"
using System;

class Program
{
    static void Main()
    {
        Console.WriteLine("Hello, World from CSHARP!");
    }
}
"#;

} // verus!
