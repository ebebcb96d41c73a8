//! Requests that check themselves.

use crate::error::APIError;
use vstd::prelude::*;

verus! {

/// What a request that did or did not check out is answered.
pub open spec fn sanity_outcome(ok: bool) -> Result<(), APIError> {
    if ok {
        Ok(())
    } else {
        Err(APIError::InvalidFormData)
    }
}

/// A request that can tell whether its form is acceptable.
pub trait APIRequest: Sized {
    /// Whether the form is acceptable.
    fn ok(&self) -> (r: bool);

    /// Refuses a request whose form is not acceptable.
    fn sanity(&self) -> (r: Result<(), APIError>)
        ensures
            exists|ok: bool| #[trigger]
                call_ensures(Self::ok, (self,), ok) && r == sanity_outcome(ok),
    {
        if self.ok() {
            Ok(())
        } else {
            Err(APIError::InvalidFormData)
        }
    }
}

/// A request whose form is acceptable goes on, and any other is refused for its
/// form data.
pub proof fn law_only_acceptable_forms_go_on(ok: bool)
    ensures
        sanity_outcome(ok) is Ok <==> ok,
        !ok ==> sanity_outcome(ok) == Err::<(), APIError>(APIError::InvalidFormData),
{
}

} // verus!
