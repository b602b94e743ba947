//! Conversions accepted by constructors and setters: text arguments may be
//! given as `&str` or `String`, optional arguments as a value or an `Option`.

use vstd::prelude::*;

verus! {

/// A value that can be turned into an owned `String`.
pub trait IntoText: Sized {
    /// The characters of the text this value stands for.
    spec fn text_view(&self) -> Seq<char>;

    fn into_text(self) -> (s: String)
        ensures
            s@ == self.text_view(),
    ;
}

impl<'a> IntoText for &'a str {
    open spec fn text_view(&self) -> Seq<char> {
        (*self)@
    }

    fn into_text(self) -> (s: String) {
        self.to_owned()
    }
}

impl IntoText for String {
    open spec fn text_view(&self) -> Seq<char> {
        self@
    }

    fn into_text(self) -> (s: String) {
        self
    }
}

/// The text of a truth value: `true` or `false`.
pub open spec fn bool_text(b: bool) -> Seq<char> {
    if b {
        "true"@
    } else {
        "false"@
    }
}

impl IntoText for bool {
    open spec fn text_view(&self) -> Seq<char> {
        bool_text(*self)
    }

    fn into_text(self) -> (s: String) {
        if self {
            "true".to_owned()
        } else {
            "false".to_owned()
        }
    }
}

/// A value that can be turned into an `Option<T>`: either a plain `T`, which
/// becomes `Some`, or an `Option<T>` itself.
pub trait IntoOption<T>: Sized {
    spec fn option_view(&self) -> Option<T>;

    fn into_option(self) -> (o: Option<T>)
        ensures
            o == self.option_view(),
    ;
}

impl<T> IntoOption<T> for Option<T> {
    open spec fn option_view(&self) -> Option<T> {
        *self
    }

    fn into_option(self) -> (o: Option<T>) {
        self
    }
}

impl IntoOption<String> for String {
    open spec fn option_view(&self) -> Option<String> {
        Some(*self)
    }

    fn into_option(self) -> (o: Option<String>) {
        Some(self)
    }
}

impl IntoOption<bool> for bool {
    open spec fn option_view(&self) -> Option<bool> {
        Some(*self)
    }

    fn into_option(self) -> (o: Option<bool>) {
        Some(self)
    }
}

impl IntoOption<u32> for u32 {
    open spec fn option_view(&self) -> Option<u32> {
        Some(*self)
    }

    fn into_option(self) -> (o: Option<u32>) {
        Some(self)
    }
}

impl IntoOption<u64> for u64 {
    open spec fn option_view(&self) -> Option<u64> {
        Some(*self)
    }

    fn into_option(self) -> (o: Option<u64>) {
        Some(self)
    }
}

} // verus!
