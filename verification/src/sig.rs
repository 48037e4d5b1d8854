//! The signature validator: rejects signatures that are incompatible with a
//! hand-written assembly body. Each rule fails independently with its own
//! error.

use vstd::prelude::*;

use crate::model::{AbiTag, AbiTagView, Error, ErrorView, SigError, SigErrorView, Signature,
    SignatureView};
use crate::text::str_eq;

verus! {

/// The ABI tag is one of the two whitelisted names.
pub open spec fn spec_abi_ok(abi: AbiTagView) -> bool {
    match abi {
        AbiTagView::Named(name) => name == "C"@ || name == "C-unwind"@,
        _ => false,
    }
}

/// What the signature validator decides: the first violated rule, in order,
/// or success.
pub open spec fn spec_validate_sig(s: SignatureView) -> Result<(), ErrorView> {
    if s.constness {
        Err(ErrorView::Signature(SigErrorView::ConstFn))
    } else if s.asyncness {
        Err(ErrorView::Signature(SigErrorView::AsyncFn))
    } else if !s.unsafety {
        Err(ErrorView::Signature(SigErrorView::MissingUnsafe))
    } else if !spec_abi_ok(s.abi) {
        Err(ErrorView::Signature(SigErrorView::BadAbi(s.abi)))
    } else if s.generics.len() != 0 {
        Err(ErrorView::Signature(SigErrorView::Generics))
    } else {
        Ok(())
    }
}

/// Checks the signature against every rule; on failure the error carries the
/// first violated rule, and for an ABI violation the offending tag.
pub fn validate_sig(sig: &Signature) -> (r: Result<(), Error>)
    ensures
        crate::model::res_view(r) == spec_validate_sig(sig@),
{
    if sig.constness {
        return Err(Error::Signature(SigError::ConstFn));
    }
    if sig.asyncness {
        return Err(Error::Signature(SigError::AsyncFn));
    }
    if !sig.unsafety {
        return Err(Error::Signature(SigError::MissingUnsafe));
    }
    let abi_ok = match &sig.abi {
        AbiTag::Named(name) => str_eq(name.as_str(), "C") || str_eq(name.as_str(), "C-unwind"),
        _ => false,
    };
    if !abi_ok {
        return Err(Error::Signature(SigError::BadAbi(sig.abi.duplicate())));
    }
    if sig.generics.len() != 0 {
        return Err(Error::Signature(SigError::Generics));
    }
    Ok(())
}

} // verus!
