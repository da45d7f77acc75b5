//! The closed set of project categories, the names users may type for them and the labels
//! the site uses.

use crate::error::Error;
use crate::text::{same_text, to_chars};
use vstd::prelude::*;

verus! {

/// A project category of the digest.
#[derive(Debug, Clone, Copy, Hash, PartialEq, Eq, Structural)]
pub enum Category {
    Java,
    Python,
    Javascript,
    Rust,
    C,
    Cpp,
    Csharp,
    ObjectC,
    Css,
    Go,
    Php,
    Ruby,
    Swift,
    Kotlin,
    MachineLearning,
    Book,
    Other,
}

/// The lower-case form of a text.
pub uninterp spec fn lowercased(s: Seq<char>) -> Seq<char>;

/// The lower-case form of a text.
///
/// Stands for `str::to_lowercase`, which maps each character by the Unicode property
/// `Lowercase` and depends on nothing but the text.
#[verifier::external_body]
pub(crate) fn lowercase(s: &str) -> (lower: String)
    ensures
        lower@ == lowercased(s@),
{
    s.to_lowercase()
}

/// The category that a lower-case name stands for.
pub open spec fn alias_category(name: Seq<char>) -> Option<Category> {
    if name == "java"@ {
        Some(Category::Java)
    } else if name == "python"@ || name == "py"@ {
        Some(Category::Python)
    } else if name == "javascript"@ || name == "js"@ {
        Some(Category::Javascript)
    } else if name == "rust"@ {
        Some(Category::Rust)
    } else if name == "c"@ {
        Some(Category::C)
    } else if name == "c++"@ || name == "cpp"@ {
        Some(Category::Cpp)
    } else if name == "php"@ {
        Some(Category::Php)
    } else if name == "objective-c"@ || name == "objectc"@ || name == "objc"@ || name == "oc"@ {
        Some(Category::ObjectC)
    } else if name == "go"@ {
        Some(Category::Go)
    } else if name == "css"@ {
        Some(Category::Css)
    } else if name == "c#"@ || name == "cs"@ {
        Some(Category::Csharp)
    } else if name == "kotlin"@ {
        Some(Category::Kotlin)
    } else if name == "swift"@ {
        Some(Category::Swift)
    } else if name == "ml"@ || name == "ai"@ {
        Some(Category::MachineLearning)
    } else if name == "ruby"@ {
        Some(Category::Ruby)
    } else if name == "book"@ {
        Some(Category::Book)
    } else if name == "other"@ {
        Some(Category::Other)
    } else {
        None
    }
}

/// Tests whether a text is exactly the given word.
pub fn is_word(v: &Vec<char>, word: &str) -> (b: bool)
    ensures
        b == (v@ == word@),
{
    let w = to_chars(word);
    same_text(v, &w)
}

impl Default for Category {
    fn default() -> (c: Category)
        ensures
            c == Category::Java,
    {
        Category::Java
    }
}

impl Category {
    /// The display label of the category.
    pub open spec fn label_text(self) -> Seq<char> {
        match self {
            Category::Java => "Java"@,
            Category::Python => "Python"@,
            Category::Javascript => "Javascript"@,
            Category::Rust => "Rust"@,
            Category::C => "C"@,
            Category::Cpp => "C++"@,
            Category::Php => "PHP"@,
            Category::ObjectC => "Objective-C"@,
            Category::Go => "Go"@,
            Category::Css => "Css"@,
            Category::Csharp => "C#"@,
            Category::Kotlin => "Kotlin"@,
            Category::Swift => "Swift"@,
            Category::MachineLearning => "机器学习"@,
            Category::Ruby => "Ruby"@,
            Category::Book => "开源书籍"@,
            Category::Other => "其他"@,
        }
    }

    /// The label under which the site files the category; it is part of the page address.
    pub open spec fn zh_text(self) -> Seq<char> {
        match self {
            Category::Java => "Java 项目"@,
            Category::Python => "Python 项目"@,
            Category::Javascript => "Javascript 项目"@,
            Category::Rust => "Rust 项目"@,
            Category::C => "C 项目"@,
            Category::Cpp => "C++ 项目"@,
            Category::Php => "PHP 项目"@,
            Category::ObjectC => "Objective-C 项目"@,
            Category::Go => "Go 项目"@,
            Category::Css => "Css 项目"@,
            Category::Csharp => "C# 项目"@,
            Category::Kotlin => "Kotlin 项目"@,
            Category::Swift => "Swift 项目"@,
            Category::MachineLearning => "机器学习"@,
            Category::Ruby => "Ruby 项目"@,
            Category::Book => "开源书籍"@,
            Category::Other => "其他"@,
        }
    }

    /// Looks a lower-case name up in the alias table.
    pub fn from_alias(name: &str) -> (found: Option<Category>)
        ensures
            found == alias_category(name@),
    {
        let v = to_chars(name);
        if is_word(&v, "java") {
            Some(Category::Java)
        } else if is_word(&v, "python") || is_word(&v, "py") {
            Some(Category::Python)
        } else if is_word(&v, "javascript") || is_word(&v, "js") {
            Some(Category::Javascript)
        } else if is_word(&v, "rust") {
            Some(Category::Rust)
        } else if is_word(&v, "c") {
            Some(Category::C)
        } else if is_word(&v, "c++") || is_word(&v, "cpp") {
            Some(Category::Cpp)
        } else if is_word(&v, "php") {
            Some(Category::Php)
        } else if is_word(&v, "objective-c") || is_word(&v, "objectc") || is_word(&v, "objc")
            || is_word(&v, "oc") {
            Some(Category::ObjectC)
        } else if is_word(&v, "go") {
            Some(Category::Go)
        } else if is_word(&v, "css") {
            Some(Category::Css)
        } else if is_word(&v, "c#") || is_word(&v, "cs") {
            Some(Category::Csharp)
        } else if is_word(&v, "kotlin") {
            Some(Category::Kotlin)
        } else if is_word(&v, "swift") {
            Some(Category::Swift)
        } else if is_word(&v, "ml") || is_word(&v, "ai") {
            Some(Category::MachineLearning)
        } else if is_word(&v, "ruby") {
            Some(Category::Ruby)
        } else if is_word(&v, "book") {
            Some(Category::Book)
        } else if is_word(&v, "other") {
            Some(Category::Other)
        } else {
            None
        }
    }

    /// Reads a category from a name typed by the user, in any letter case.
    pub fn try_from(s: String) -> (r: Result<Category, Error>)
        ensures
            r == match alias_category(lowercased(s@)) {
                Some(c) => Ok::<Category, Error>(c),
                None => Err::<Category, Error>(Error::InvalidCategory),
            },
    {
        let lower = lowercase(s.as_str());
        match Category::from_alias(lower.as_str()) {
            Some(c) => Ok(c),
            None => Err(Error::InvalidCategory),
        }
    }

    /// The display label of the category.
    pub fn label(self) -> (s: String)
        ensures
            s@ == self.label_text(),
    {
        match self {
            Category::Java => "Java".to_owned(),
            Category::Python => "Python".to_owned(),
            Category::Javascript => "Javascript".to_owned(),
            Category::Rust => "Rust".to_owned(),
            Category::C => "C".to_owned(),
            Category::Cpp => "C++".to_owned(),
            Category::Php => "PHP".to_owned(),
            Category::ObjectC => "Objective-C".to_owned(),
            Category::Go => "Go".to_owned(),
            Category::Css => "Css".to_owned(),
            Category::Csharp => "C#".to_owned(),
            Category::Kotlin => "Kotlin".to_owned(),
            Category::Swift => "Swift".to_owned(),
            Category::MachineLearning => "机器学习".to_owned(),
            Category::Ruby => "Ruby".to_owned(),
            Category::Book => "开源书籍".to_owned(),
            Category::Other => "其他".to_owned(),
        }
    }

    /// The label under which the site files the category.
    pub fn to_zh(self) -> (s: String)
        ensures
            s@ == self.zh_text(),
    {
        match self {
            Category::Java => "Java 项目".to_owned(),
            Category::Python => "Python 项目".to_owned(),
            Category::Javascript => "Javascript 项目".to_owned(),
            Category::Rust => "Rust 项目".to_owned(),
            Category::C => "C 项目".to_owned(),
            Category::Cpp => "C++ 项目".to_owned(),
            Category::Php => "PHP 项目".to_owned(),
            Category::ObjectC => "Objective-C 项目".to_owned(),
            Category::Go => "Go 项目".to_owned(),
            Category::Css => "Css 项目".to_owned(),
            Category::Csharp => "C# 项目".to_owned(),
            Category::Kotlin => "Kotlin 项目".to_owned(),
            Category::Swift => "Swift 项目".to_owned(),
            Category::MachineLearning => "机器学习".to_owned(),
            Category::Ruby => "Ruby 项目".to_owned(),
            Category::Book => "开源书籍".to_owned(),
            Category::Other => "其他".to_owned(),
        }
    }
}

} // verus!
