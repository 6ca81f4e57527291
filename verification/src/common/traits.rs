//! The interface of a service that delivers scraped media.
use vstd::prelude::*;

verus! {

/// A service that delivers what it is given and reports on each delivery.
pub trait MediaSender {
    type Input;
    type Output;

    fn send_medias(input: Self::Input) -> Self::Output;
}

} // verus!
