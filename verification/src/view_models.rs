use vstd::prelude::*;
use std::rc::Rc;

verus! {

/// A view model of a simple static text, for example an item of a drop-down list.
#[derive(PartialEq)]
pub struct StringViewModel {
    pub text: String,
}

impl StringViewModel {
    /// A shared view model showing `text`.
    pub fn new(text: &str) -> (vm: Rc<Self>)
        ensures
            vm.text@ == text@,
    {
        Rc::new(StringViewModel { text: text.to_owned() })
    }
}

} // verus!
