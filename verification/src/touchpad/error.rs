//! What can go wrong around the touchpad, and the text that reports it.

use vstd::prelude::*;

verus! {

/// A failure while the touchpad is switched or its state is announced.
#[derive(Debug, PartialEq, Eq)]
pub enum TouchpadError {
    /// The flag file could not be read or written; holds the system's words for it.
    Io(String),
    /// No touchpad was found, or its flag file holds something else than a flag.
    Sysfs(&'static str),
    /// The notifier did not start, or ended in failure.
    Notify(&'static str),
    /// The identity of the process could not be changed.
    PrivDrop(&'static str),
}

/// A `TouchpadError` with its texts as sequences of characters.
pub enum TouchpadErrorView {
    Io(Seq<char>),
    Sysfs(Seq<char>),
    Notify(Seq<char>),
    PrivDrop(Seq<char>),
}

impl View for TouchpadError {
    type V = TouchpadErrorView;

    open spec fn view(&self) -> TouchpadErrorView {
        match self {
            TouchpadError::Io(s) => TouchpadErrorView::Io(s@),
            TouchpadError::Sysfs(s) => TouchpadErrorView::Sysfs(s@),
            TouchpadError::Notify(s) => TouchpadErrorView::Notify(s@),
            TouchpadError::PrivDrop(s) => TouchpadErrorView::PrivDrop(s@),
        }
    }
}

impl DeepView for TouchpadError {
    type V = TouchpadErrorView;

    open spec fn deep_view(&self) -> TouchpadErrorView {
        self@
    }
}

impl TouchpadErrorView {
    /// The line that reports this error: the kind of failure, a colon, and the detail.
    pub open spec fn message(self) -> Seq<char> {
        match self {
            TouchpadErrorView::Io(s) => "IO 错误: "@ + s,
            TouchpadErrorView::Sysfs(s) => "sysfs 错误: "@ + s,
            TouchpadErrorView::Notify(s) => "通知错误: "@ + s,
            TouchpadErrorView::PrivDrop(s) => "权限切换错误: "@ + s,
        }
    }
}

impl TouchpadError {
    /// The line that reports this error.
    pub fn message(&self) -> (r: String)
        ensures
            r@ == self@.message(),
    {
        match self {
            TouchpadError::Io(s) => String::from_str("IO 错误: ").concat(s.as_str()),
            TouchpadError::Sysfs(s) => String::from_str("sysfs 错误: ").concat(s),
            TouchpadError::Notify(s) => String::from_str("通知错误: ").concat(s),
            TouchpadError::PrivDrop(s) => String::from_str("权限切换错误: ").concat(s),
        }
    }
}

} // verus!
