//! Logical exchange operations and their resolution to URLs.
use vstd::prelude::*;

pub mod kline;
pub mod spot;

use self::spot::Spot;

verus! {

/// A logical API operation, grouped by product line.
#[derive(Debug, Clone, Copy, PartialEq, Eq, Structural)]
pub enum API {
    Spot(Spot),
}

/// Resolves an operation to the URL of one exchange.
pub trait ToUrl {
    /// The URL that `to_url` gives for `api`.
    spec fn url_of(&self, api: API) -> Seq<char>;

    /// To api url.
    fn to_url(&self, api: API) -> (r: String)
        ensures
            r@ == self.url_of(api),
    ;
}

} // verus!
