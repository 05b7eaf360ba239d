//! Resolving a port to the identifiers of the processes that own it.
//!
//! The host's socket table is enumerated by the surrounding binary once
//! per query — host I/O whose failure the binary contains by handing over
//! the empty table — and arrives here as plain records. The resolution
//! rule is verified: the first record whose local port equals the
//! requested port contributes its associated process identifiers.

use vstd::prelude::*;
use vstd::slice::slice_to_vec;

verus! {

/// The protocol a socket record belongs to.
#[derive(Clone, Copy, Debug, PartialEq, Eq, Structural)]
pub enum Proto {
    Tcp,
    Udp,
}

/// One entry of the socket table: a protocol, a local port, and the
/// identifiers of the processes associated with the socket (zero or more).
#[derive(Debug)]
pub struct SocketRecord {
    pub proto: Proto,
    pub local_port: u16,
    pub pids: Vec<u32>,
}

/// The process identifiers a port resolves to in a socket table: those of
/// the first record whose local port equals `port`, or the empty sequence
/// when no record matches. Later matching records do not contribute.
pub open spec fn resolve_spec(table: Seq<SocketRecord>, port: u16) -> Seq<u32>
    decreases table.len(),
{
    if table.len() == 0 {
        Seq::empty()
    } else if table[0].local_port == port {
        table[0].pids@
    } else {
        resolve_spec(table.skip(1), port)
    }
}

/// A port with no matching record resolves to the empty sequence, whatever
/// records other ports may have.
pub proof fn lemma_resolve_no_match(table: Seq<SocketRecord>, port: u16)
    requires
        forall|i: int| 0 <= i < table.len() ==> table[i].local_port != port,
    ensures
        resolve_spec(table, port) =~= Seq::<u32>::empty(),
    decreases table.len(),
{
    if table.len() > 0 {
        lemma_resolve_no_match(table.skip(1), port);
    }
}

/// When record `i` is the first whose local port equals `port`, resolution
/// returns exactly that record's process identifiers: records after it,
/// matching or not, do not contribute.
pub proof fn lemma_resolve_first_match(table: Seq<SocketRecord>, port: u16, i: int)
    requires
        0 <= i < table.len(),
        table[i].local_port == port,
        forall|j: int| 0 <= j < i ==> table[j].local_port != port,
    ensures
        resolve_spec(table, port) == table[i].pids@,
    decreases i,
{
    if i > 0 {
        lemma_resolve_first_match(table.skip(1), port, i - 1);
    }
}

/// Find the first record of `table` whose local port is `port` and return
/// a copy of its process identifiers, or an empty vector if none matches.
pub fn resolve(table: &Vec<SocketRecord>, port: u16) -> (pids: Vec<u32>)
    ensures
        pids@ == resolve_spec(table@, port),
{
    let n = table.len();
    let mut i: usize = 0;
    assert(table@.skip(0) =~= table@);
    while i < n
        invariant
            0 <= i <= n == table@.len(),
            resolve_spec(table@, port) == resolve_spec(table@.skip(i as int), port),
        decreases n - i,
    {
        if table[i].local_port == port {
            assert(table@.skip(i as int)[0] == table@[i as int]);
            return slice_to_vec(table[i].pids.as_slice());
        }
        assert(table@.skip(i as int).skip(1) =~= table@.skip(i as int + 1));
        i = i + 1;
    }
    assert(table@.skip(n as int) =~= Seq::<SocketRecord>::empty());
    Vec::new()
}

} // verus!
