//! The one-time, administrator-gated initialization of the global
//! configuration record.

use crate::constants::spec_owner;
use crate::error::CustomError;
use crate::event::{init_message, InitializeEvent};
use crate::identity::Identity;
use crate::state::GlobalState;
use vstd::prelude::*;
use vstd::string::StringExecFns;

verus! {

/// The records an initialization touches: the authenticated caller and the
/// global configuration record at its derived singleton address. Declaring
/// them up front is what lets the surrounding scheduler serialize
/// conflicting invocations.
#[derive(Clone, Copy, Debug, PartialEq, Eq, Structural)]
pub struct Initialize {
    /// The authenticated caller.
    pub signer: Identity,
    /// The singleton global configuration record.
    pub global_state: GlobalState,
}

/// The access-control gate of initialization: only the hard-coded
/// administrator may proceed. It is evaluated before anything else and
/// touches no state.
pub fn check(ctx: &Initialize) -> (r: Result<(), CustomError>)
    ensures
        r == (if ctx.signer == spec_owner() {
            Ok::<(), CustomError>(())
        } else {
            Err::<(), CustomError>(CustomError::NotOwner)
        }),
{
    if ctx.signer == crate::constants::owner() {
        Ok(())
    } else {
        Err(CustomError::NotOwner)
    }
}

/// The state transition of `initialize_global_state`: a second
/// initialization fails with `AlreadyInitialized` and changes nothing; the
/// first one marks the record initialized, stores the permitted token and
/// records the caller as administrator.
pub open spec fn spec_initialize(ctx: Initialize, mint: Identity) -> (Initialize, Result<
    (),
    CustomError,
>) {
    if ctx.global_state.initialized {
        (ctx, Err(CustomError::AlreadyInitialized))
    } else {
        (
            Initialize {
                signer: ctx.signer,
                global_state: GlobalState { initialized: true, mint, authority: ctx.signer },
            },
            Ok(()),
        )
    }
}

/// The state transition of the externally invoked `initialize`: the
/// access-control gate first, producing `NotOwner` without touching state,
/// then the transition of `initialize_global_state`.
pub open spec fn spec_initialize_checked(ctx: Initialize, mint: Identity) -> (Initialize, Result<
    (),
    CustomError,
>) {
    if ctx.signer != spec_owner() {
        (ctx, Err(CustomError::NotOwner))
    } else {
        spec_initialize(ctx, mint)
    }
}

/// Creates the global configuration record's contents: fails with
/// `AlreadyInitialized` if the record already went through initialization,
/// and otherwise marks it initialized, stores `mint` as the permitted token,
/// records the caller as administrator, and returns the informational event
/// of the activation.
pub fn initialize_global_state(ctx: &mut Initialize, mint: Identity) -> (r: Result<
    InitializeEvent,
    CustomError,
>)
    ensures
        *final(ctx) == spec_initialize(*old(ctx), mint).0,
        (match r {
            Ok(ev) => spec_initialize(*old(ctx), mint).1 is Ok && ev.signer == old(ctx).signer
                && ev.mint == mint && ev.message@ == init_message(),
            Err(e) => spec_initialize(*old(ctx), mint).1 == Err::<(), CustomError>(e),
        }),
        r is Ok <==> !old(ctx).global_state.initialized,
        r is Err ==> *final(ctx) == *old(ctx),
{
    if ctx.global_state.initialized {
        return Err(CustomError::AlreadyInitialized);
    }
    ctx.global_state.initialized = true;
    ctx.global_state.mint = mint;
    ctx.global_state.authority = ctx.signer;
    Ok(InitializeEvent {
        message: String::from_str("Initialized global state"),
        signer: ctx.signer,
        mint,
    })
}

} // verus!
