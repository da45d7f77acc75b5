//! What can go wrong while a query is resolved and a page is read.

use vstd::prelude::*;

verus! {

/// A failure that is reported to the user and never stops the event loop.
#[derive(Debug, Clone, Copy, PartialEq, Eq, Structural)]
pub enum Error {
    /// The text after `#` is not a number.
    InvalidVolume,
    /// The text after `$` is no known category name.
    InvalidCategory,
    /// The page is not built the way the reader depends on.
    ParseContractViolation,
}

impl Error {
    /// The text shown to the user for this failure.
    pub open spec fn text(self) -> Seq<char> {
        match self {
            Error::InvalidVolume => "请输入有效的期数大于 0 的数字！"@,
            Error::InvalidCategory => "请输入有效的类别名称，如：java, py, js, go 等"@,
            Error::ParseContractViolation => "页面结构与预期不符，无法解析"@,
        }
    }

    /// The text shown to the user for this failure.
    pub fn message(&self) -> (s: String)
        ensures
            s@ == self.text(),
    {
        match self {
            Error::InvalidVolume => "请输入有效的期数大于 0 的数字！".to_owned(),
            Error::InvalidCategory => "请输入有效的类别名称，如：java, py, js, go 等".to_owned(),
            Error::ParseContractViolation => "页面结构与预期不符，无法解析".to_owned(),
        }
    }
}

} // verus!
