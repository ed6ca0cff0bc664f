//! Errors that the provider reports inside an answer.

use vstd::prelude::*;

verus! {

/// One error of a provider answer: a numeric code and its explanation.
#[derive(Debug)]
pub struct CloudFlareError {
    pub code: u32,
    pub message: String,
}

/// What a `CloudFlareError` holds, as mathematical values.
pub ghost struct CloudFlareErrorView {
    pub code: u32,
    pub message: Seq<char>,
}

impl View for CloudFlareError {
    type V = CloudFlareErrorView;

    open spec fn view(&self) -> CloudFlareErrorView {
        CloudFlareErrorView { code: self.code, message: self.message@ }
    }
}

impl DeepView for CloudFlareError {
    type V = CloudFlareErrorView;

    open spec fn deep_view(&self) -> CloudFlareErrorView {
        self@
    }
}

impl Clone for CloudFlareError {
    fn clone(&self) -> (copy: Self)
        ensures
            copy@ == self@,
    {
        CloudFlareError { code: self.code, message: self.message.clone() }
    }
}

} // verus!
