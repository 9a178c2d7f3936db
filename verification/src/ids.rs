//! Request identifiers and their manager: fresh identifiers for single
//! calls and contiguous integer ranges for batches, drawn from one shared
//! counter that is never rewound and never wraps.

use vstd::prelude::*;

use crate::errors::{RpcError, RpcErrorV};
use crate::text::{dec_rep, push_decimal};

verus! {

/// Which shape of identifier single calls use: a JSON number or a JSON
/// string holding the decimal rendering of the counter.
#[derive(Debug, Clone, Copy, PartialEq, Eq, Structural)]
pub enum IdKind {
    Number,
    Text,
}

/// A request identifier: a non-negative integer or a string (carried as its
/// UTF-8 bytes).
#[derive(Debug, Clone, PartialEq, Eq)]
pub enum Id {
    Num(u64),
    Text(Vec<u8>),
}

/// Specification-level image of an [`Id`].
pub enum IdV {
    Num(u64),
    Text(Seq<u8>),
}

impl View for Id {
    type V = IdV;

    open spec fn view(&self) -> IdV {
        match self {
            Id::Num(n) => IdV::Num(*n),
            Id::Text(t) => IdV::Text(t@),
        }
    }
}

/// Equality of identifiers: same shape, same value.
pub open spec fn id_eq(a: IdV, b: IdV) -> bool {
    match (a, b) {
        (IdV::Num(x), IdV::Num(y)) => x == y,
        (IdV::Text(s), IdV::Text(t)) => s == t,
        _ => false,
    }
}

/// Decides whether two identifiers are equal.
pub fn ids_match(a: &Id, b: &Id) -> (r: bool)
    ensures
        r == id_eq(a@, b@),
{
    match (a, b) {
        (Id::Num(x), Id::Num(y)) => *x == *y,
        (Id::Text(s), Id::Text(t)) => crate::text::bytes_eq(s.as_slice(), t.as_slice()),
        _ => false,
    }
}

/// Textual rendering of an identifier, used when an error names it:
/// the decimal digits of a numeric identifier, the string itself otherwise.
pub open spec fn spec_id_text(id: IdV) -> Seq<u8> {
    match id {
        IdV::Num(n) => dec_rep(n as nat),
        IdV::Text(t) => t,
    }
}

/// Renders an identifier as text.
pub fn id_text(id: &Id) -> (r: Vec<u8>)
    ensures
        r@ == spec_id_text(id@),
{
    match id {
        Id::Num(n) => {
            let mut out: Vec<u8> = Vec::new();
            push_decimal(&mut out, *n);
            assert(out@ =~= dec_rep(*n as nat));
            out
        },
        Id::Text(t) => t.clone(),
    }
}

/// A contiguous span of integer identifiers `[start, end)` reserved for one
/// batch.
#[derive(Debug, Clone, Copy, PartialEq, Eq, Structural)]
pub struct IdRange {
    pub start: u64,
    pub end: u64,
}

/// The identifier the configured kind gives to counter value `n`.
pub open spec fn spec_make_id(kind: IdKind, n: u64) -> IdV {
    match kind {
        IdKind::Number => IdV::Num(n),
        IdKind::Text => IdV::Text(dec_rep(n as nat)),
    }
}

/// Issues fresh request identifiers and contiguous batch ranges from one
/// monotonically increasing counter. Identifiers are never reclaimed or
/// reused; exhaustion of the counter is reported, never wrapped.
#[derive(Debug)]
pub struct IdManager {
    pub kind: IdKind,
    pub counter: u64,
}

impl IdManager {
    /// A fresh manager whose first identifier will be `0`.
    pub fn new(kind: IdKind) -> (r: Self)
        ensures
            r.kind == kind,
            r.counter == 0,
    {
        IdManager { kind, counter: 0 }
    }

    /// Issues one fresh identifier of the configured kind and advances the
    /// counter, or reports exhaustion leaving the manager unchanged.
    pub fn next_request_id(&mut self) -> (r: Result<Id, RpcError>)
        ensures
            final(self).kind == old(self).kind,
            old(self).counter < u64::MAX ==> (r matches Ok(id) && id@ == spec_make_id(
                old(self).kind,
                old(self).counter,
            ) && final(self).counter == old(self).counter + 1),
            old(self).counter == u64::MAX ==> (r matches Err(e) && e@ == RpcErrorV::RangeOverflow
                && final(self).counter == old(self).counter),
    {
        if self.counter == u64::MAX {
            Err(RpcError::RangeOverflow)
        } else {
            let n = self.counter;
            self.counter = n + 1;
            match self.kind {
                IdKind::Number => Ok(Id::Num(n)),
                IdKind::Text => {
                    let mut out: Vec<u8> = Vec::new();
                    push_decimal(&mut out, n);
                    assert(out@ =~= dec_rep(n as nat));
                    Ok(Id::Text(out))
                },
            }
        }
    }

    /// Reserves `count` contiguous integer identifiers `[start, start+count)`
    /// and advances the counter past them, or reports overflow leaving the
    /// manager unchanged. Batches are always integer-identified; the range is
    /// drawn from the same counter as single-call identifiers.
    pub fn allocate_range(&mut self, count: u64) -> (r: Result<IdRange, RpcError>)
        requires
            count >= 1,
        ensures
            final(self).kind == old(self).kind,
            old(self).counter + count <= u64::MAX ==> (r matches Ok(g) && g.start == old(
                self,
            ).counter && g.end == old(self).counter + count && final(self).counter == old(
                self,
            ).counter + count),
            old(self).counter + count > u64::MAX ==> (r matches Err(e) && e@
                == RpcErrorV::RangeOverflow && final(self).counter == old(self).counter),
    {
        if count <= u64::MAX - self.counter {
            let s = self.counter;
            self.counter = s + count;
            Ok(IdRange { start: s, end: s + count })
        } else {
            Err(RpcError::RangeOverflow)
        }
    }
}

} // verus!
