//! The capability every generated error exposes at run time, and the values
//! that carry it.

use vstd::prelude::*;

verus! {

/// The text of a leaf error: `(CODE): DESC`, followed by
/// ` Detailed Error: DETAIL` when the variant carries a payload.
pub open spec fn display_text(code: Seq<char>, desc: Seq<char>, detail: Option<Seq<char>>) -> Seq<
    char,
> {
    let head = "("@ + code + "): "@ + desc;
    match detail {
        None => head,
        Some(d) => head + " Detailed Error: "@ + d,
    }
}

/// An error with a code, a description and a rendering. Leaf and container
/// error types implement it; a container forwards all three to the value it
/// wraps. Each method returns the matching view; an implementation states
/// its views by overriding them, and the defaults say nothing outside this
/// module.
pub trait PrettyError {
    /// The code that `get_error_code` returns.
    closed spec fn code_view(&self) -> Seq<char> {
        Seq::empty()
    }

    /// The error's code, e.g. `CFG-001`.
    fn get_error_code(&self) -> (r: &str)
        ensures
            r@ == self.code_view(),
    ;

    /// The description that `description` returns.
    closed spec fn description_view(&self) -> Seq<char> {
        Seq::empty()
    }

    /// The text that `render` returns.
    closed spec fn display_view(&self) -> Seq<char> {
        Seq::empty()
    }

    /// The error's description, e.g. `Unable to Load File from disk.`.
    fn description(&self) -> (r: &str)
        ensures
            r@ == self.description_view(),
    ;

    /// The error as shown to a user.
    fn render(&self) -> (r: String)
        ensures
            r@ == self.display_view(),
    ;
}

/// A value of a leaf error type: the code and description of its variant,
/// and the debug rendering of its payload if it has one.
#[derive(Debug, PartialEq, Eq)]
pub struct ErrorValue {
    pub code: String,
    pub description: String,
    pub detail: Option<String>,
}

/// The view of an optional string.
pub open spec fn opt_view(o: Option<String>) -> Option<Seq<char>> {
    match o {
        None => None,
        Some(s) => Some(s@),
    }
}

impl PrettyError for ErrorValue {
    open spec fn code_view(&self) -> Seq<char> {
        self.code@
    }

    open spec fn description_view(&self) -> Seq<char> {
        self.description@
    }

    open spec fn display_view(&self) -> Seq<char> {
        display_text(self.code@, self.description@, opt_view(self.detail))
    }

    fn get_error_code(&self) -> (r: &str) {
        self.code.as_str()
    }

    fn description(&self) -> (r: &str) {
        self.description.as_str()
    }

    fn render(&self) -> (r: String) {
        let mut s = "(".to_owned();
        s.append(self.code.as_str());
        s.append("): ");
        s.append(self.description.as_str());
        match &self.detail {
            None => {},
            Some(d) => {
                s.append(" Detailed Error: ");
                s.append(d.as_str());
            },
        }
        s
    }
}

/// A value of a container error type: the variant at position `variant`
/// wrapping `inner`. Everything it shows comes from `inner`.
#[derive(Debug, PartialEq, Eq)]
pub struct Wrapped<E> {
    pub variant: usize,
    pub inner: E,
}

impl<E: PrettyError> PrettyError for Wrapped<E> {
    open spec fn code_view(&self) -> Seq<char> {
        self.inner.code_view()
    }

    open spec fn description_view(&self) -> Seq<char> {
        self.inner.description_view()
    }

    open spec fn display_view(&self) -> Seq<char> {
        self.inner.display_view()
    }

    fn get_error_code(&self) -> (r: &str) {
        self.inner.get_error_code()
    }

    fn description(&self) -> (r: &str) {
        self.inner.description()
    }

    fn render(&self) -> (r: String) {
        self.inner.render()
    }
}

} // verus!
