//! The data a release entry of a list view shows.
use vstd::prelude::*;

verus! {

pub struct ProtonWidget {
    pub name: String,
    pub installed: bool,
}

impl ProtonWidget {
    pub fn new(name: String, installed: bool) -> (r: ProtonWidget)
        ensures
            r.name@ == name@,
            r.installed == installed,
    {
        ProtonWidget { name, installed }
    }
}

pub fn proton_widget(name: String, installed: bool) -> (r: ProtonWidget)
    ensures
        r.name@ == name@,
        r.installed == installed,
{
    ProtonWidget::new(name, installed)
}

} // verus!
