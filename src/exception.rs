//! One reported error occurrence.

use vstd::prelude::*;
use crate::stacktrace::Frame;

verus! {

pub struct Exception<'a> {
    pub error_class: &'a str,
    pub message: &'a str,
    pub stacktrace: &'a [Frame],
}

impl<'a> Exception<'a> {
    pub fn new(errorclass: &'a str, message: &'a str, stacktrace: &'a [Frame]) -> (r: Exception<'a>)
        ensures
            r.error_class == errorclass,
            r.message == message,
            r.stacktrace == stacktrace,
    {
        Exception { error_class: errorclass, message, stacktrace }
    }
}

} // verus!
