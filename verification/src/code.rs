//! The referral code and the referral link. A user's canister is identified
//! by a principal, held here as its significant bytes; the referral code is
//! that principal's textual form, and the referral link appends the code to
//! the page's origin as a query parameter.

use vstd::prelude::*;

verus! {

use vstd::string::StringExecFns;

/// The longest principal, in bytes.
pub const MAX_CANISTER_ID_BYTES: usize = 29;

/// The textual form of a principal with the given significant bytes.
pub uninterp spec fn principal_text(bytes: Seq<u8>) -> Seq<char>;

/// Relies on candid::Principal: from_slice wraps the bytes (it panics on more
/// than 29, hence the precondition) and to_text derives the textual form,
/// which depends on the bytes alone.
#[verifier::external_body]
fn principal_to_text(bytes: &Vec<u8>) -> (t: String)
    requires
        bytes@.len() <= MAX_CANISTER_ID_BYTES,
    ensures
        t@ == principal_text(bytes@),
{
    candid::Principal::from_slice(bytes.as_slice()).to_text()
}

/// The principal of a user's canister: at most 29 significant bytes.
pub struct CanisterId {
    bytes: Vec<u8>,
}

impl View for CanisterId {
    type V = Seq<u8>;

    closed spec fn view(&self) -> Seq<u8> {
        self.bytes@
    }
}

impl CanisterId {
    #[verifier::type_invariant]
    spec fn wf(self) -> bool {
        self.bytes@.len() <= MAX_CANISTER_ID_BYTES
    }

    /// Wraps the significant bytes of a principal; a slice longer than any
    /// principal is rejected.
    pub fn from_bytes(bytes: Vec<u8>) -> (r: Option<CanisterId>)
        ensures
            r is Some <==> bytes@.len() <= MAX_CANISTER_ID_BYTES,
            r matches Some(id) ==> id@ == bytes@,
    {
        if bytes.len() <= MAX_CANISTER_ID_BYTES {
            Some(CanisterId { bytes })
        } else {
            None
        }
    }
}

/// Returns the referral code of the given user canister: the textual form of
/// its principal.
pub fn refer_code(user_canister: &CanisterId) -> (code: String)
    ensures
        code@ == principal_text(user_canister@),
{
    proof {
        use_type_invariant(&*user_canister);
    }
    principal_to_text(&user_canister.bytes)
}

/// The referral link: the origin, then the referral query parameter, then the
/// referral code.
pub open spec fn spec_refer_link(origin: Seq<char>, id: Seq<u8>) -> Seq<char> {
    origin + "/?user_refer="@ + principal_text(id)
}

/// Returns the referral link for the given origin and user canister.
pub fn refer_link(origin: &str, user_canister: &CanisterId) -> (link: String)
    ensures
        link@ == spec_refer_link(origin@, user_canister@),
{
    let code = refer_code(user_canister);
    String::from_str(origin).concat("/?user_refer=").concat(code.as_str())
}

/// Returns the referral link for the window's origin, or an empty link while
/// no window origin is available.
pub fn refer_link_of_window(origin: Option<&str>, user_canister: &CanisterId) -> (link: String)
    ensures
        origin matches Some(o) ==> link@ == spec_refer_link(o@, user_canister@),
        origin is None ==> link@ == Seq::<char>::empty(),
{
    match origin {
        Some(o) => refer_link(o, user_canister),
        None => String::new(),
    }
}

} // verus!
