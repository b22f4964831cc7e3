//! The kitchen: breakfasts whose fruit the kitchen chooses, and appetisers.

use vstd::prelude::*;

verus! {

/// A breakfast order. The guest picks the toast; the fruit follows the season
/// and is the kitchen's choice, so it can only be set by a constructor here.
pub struct Breakfast {
    pub toast: String,
    seasonal_fruit: String,
}

/// The appetisers on the menu.
#[derive(Debug, Clone, Copy, PartialEq, Eq, Structural)]
pub enum Appetiser {
    Soup,
    Salad,
}

impl Breakfast {
    /// The toast ordered.
    pub closed spec fn toast_kind(&self) -> Seq<char> {
        self.toast@
    }

    /// The fruit served with this breakfast.
    pub closed spec fn fruit(&self) -> Seq<char> {
        self.seasonal_fruit@
    }

    /// The summer breakfast: the given toast, served with peaches.
    pub fn summer(toast: &str) -> (r: Breakfast)
        ensures
            r.toast_kind() == toast@,
            r.fruit() == "peaches"@,
    {
        Breakfast { toast: toast.to_owned(), seasonal_fruit: "peaches".to_owned() }
    }

    /// Reads the fruit served with this breakfast.
    pub fn seasonal_fruit(&self) -> (r: &str)
        ensures
            r@ == self.fruit(),
    {
        self.seasonal_fruit.as_str()
    }
}

} // verus!
