//! The bridge from portable readiness sets to the host's native multiplexing
//! primitive.
//!
//! Requested events are translated bit-for-bit into the native constants,
//! submitted through the native `poll` with a short fixed timeout, and the
//! observed events are translated back, preserving input order.  A capability
//! without a native handle is excluded from the native call and observes no
//! events.

use vstd::prelude::*;

use crate::file::WasiFile;
use crate::fs_error::WasiFsError;
use crate::poll_event::PollEvent;
use crate::poll_event::PollEventBuilder;
use crate::poll_event::PollEventSet;
use crate::poll_event::event_bit;
use crate::poll_event::has_event;

verus! {

/// The timeout, in milliseconds, handed to the native multiplexing call: a
/// short fixed wait, deliberately neither zero nor infinite.  A design
/// parameter, not a promise.
pub const POLL_TIMEOUT_MILLIS: i32 = 1;

/// The bit an event kind occupies in the host's native event mask.
pub open spec fn native_bit(e: PollEvent) -> i16 {
    match e {
        PollEvent::PollIn => 1,
        PollEvent::PollOut => 4,
        PollEvent::PollError => 8,
        PollEvent::PollHangUp => 16,
        PollEvent::PollInvalid => 32,
    }
}

/// Whether a native event mask holds a kind.
pub open spec fn native_has(mask: i16, e: PollEvent) -> bool {
    mask & native_bit(e) != 0
}

/// The bit facts the translations rest on: or-ing one event bit into a mask
/// sets exactly that bit's kind, the empty mask holds nothing, and masks
/// built from the five portable bits — or from the five native constants —
/// stay within them.
proof fn lemma_mask_bits()
    by (bit_vector)
    ensures
        forall|s: i16, b: i16, q: i16|
            ((b == 1 || b == 2 || b == 4 || b == 8 || b == 16 || b == 32) && (q == 1 || q == 2 || q
                == 4 || q == 8 || q == 16 || q == 32)) ==> ((#[trigger] ((s | b) & q)) != 0 <==> (b
                == q || s & q != 0)),
        forall|q: i16| #[trigger] (0i16 & q) == 0,
        forall|s: i16, b: i16|
            (s & 31i16 == s && (b == 1 || b == 2 || b == 4 || b == 8 || b == 16)) ==> (#[trigger] (s
                | b)) & 31i16 == (s | b),
        forall|s: i16, b: i16|
            (s & 61i16 == s && (b == 1 || b == 4 || b == 8 || b == 16 || b == 32)) ==> (#[trigger] (
            s | b)) & 61i16 == (s | b),
{
}

/// A native poll registration, carried opaquely between the wrappers.
#[verifier::external_type_specification]
#[verifier::external_body]
pub struct ExPollFd(nix::poll::PollFd);

/// Relies on nix::poll::PollFlags::POLLIN: the native readable bit is 1.
#[verifier::external_body]
fn native_pollin() -> (r: i16)
    ensures
        r == 1i16,
{
    nix::poll::PollFlags::POLLIN.bits()
}

/// Relies on nix::poll::PollFlags::POLLOUT: the native writable bit is 4.
#[verifier::external_body]
fn native_pollout() -> (r: i16)
    ensures
        r == 4i16,
{
    nix::poll::PollFlags::POLLOUT.bits()
}

/// Relies on nix::poll::PollFlags::POLLERR: the native error bit is 8.
#[verifier::external_body]
fn native_pollerr() -> (r: i16)
    ensures
        r == 8i16,
{
    nix::poll::PollFlags::POLLERR.bits()
}

/// Relies on nix::poll::PollFlags::POLLHUP: the native hang-up bit is 16.
#[verifier::external_body]
fn native_pollhup() -> (r: i16)
    ensures
        r == 16i16,
{
    nix::poll::PollFlags::POLLHUP.bits()
}

/// Relies on nix::poll::PollFlags::POLLNVAL: the native invalid bit is 32.
#[verifier::external_body]
fn native_pollnval() -> (r: i16)
    ensures
        r == 32i16,
{
    nix::poll::PollFlags::POLLNVAL.bits()
}

/// Relies on nix::poll::PollFd::new: registers a host handle with a native
/// event mask.
#[verifier::external_body]
fn native_pollfd_new(fd: i32, events: i16) -> nix::poll::PollFd {
    nix::poll::PollFd::new(fd, nix::poll::PollFlags::from_bits_truncate(events))
}

/// Relies on nix::poll::PollFd::revents: the native mask observed by the last
/// native poll, or `None` where the kernel reported bits nix has no name for.
#[verifier::external_body]
fn native_pollfd_revents(fd: &nix::poll::PollFd) -> Option<i16> {
    match fd.revents() {
        Some(flags) => Some(flags.bits()),
        None => None,
    }
}

/// Relies on nix::poll::poll: blocks up to `timeout` milliseconds on the
/// registrations, writing observed events into them in place; the count of
/// ready registrations comes back as `Ok`, a host errno as `Err`.
#[verifier::external_body]
fn native_poll(fds: &mut Vec<nix::poll::PollFd>, timeout: i32) -> (r: Result<i32, i32>)
    ensures
        final(fds)@.len() == old(fds)@.len(),
{
    match nix::poll::poll(fds.as_mut_slice(), timeout) {
        Ok(n) => Ok(n),
        Err(e) => Err(e as i32),
    }
}

/// Translate a portable readiness set into the host's native event mask,
/// kind for kind.  Only the five recognized native bits can come out set:
/// nothing is ever requested of the host that the caller did not ask for.
pub fn poll_event_set_to_platform_poll_events(pes: PollEventSet) -> (r: i16)
    ensures
        forall|e: PollEvent| #[trigger] native_has(r, e) <==> has_event(pes, e),
        r & 61i16 == r,
{
    proof {
        lemma_mask_bits();
    }
    let mut out: i16 = 0;
    if pes & 1i16 != 0 {
        out = out | native_pollin();
    }
    if pes & 2i16 != 0 {
        out = out | native_pollout();
    }
    if pes & 4i16 != 0 {
        out = out | native_pollerr();
    }
    if pes & 8i16 != 0 {
        out = out | native_pollhup();
    }
    if pes & 16i16 != 0 {
        out = out | native_pollnval();
    }
    out
}

/// Translate a native event mask back into the portable readiness set,
/// kind for kind.  Only the five recognized bits can come back set.
pub fn platform_poll_events_to_pollevent_set(num: i16) -> (r: PollEventSet)
    ensures
        forall|e: PollEvent| #[trigger] has_event(r, e) <==> native_has(num, e),
        r & 31i16 == r,
{
    proof {
        lemma_mask_bits();
    }
    let mut peb = PollEventBuilder::new();
    if num & native_pollin() != 0 {
        peb = peb.add(PollEvent::PollIn);
    }
    if num & native_pollout() != 0 {
        peb = peb.add(PollEvent::PollOut);
    }
    if num & native_pollerr() != 0 {
        peb = peb.add(PollEvent::PollError);
    }
    if num & native_pollhup() != 0 {
        peb = peb.add(PollEvent::PollHangUp);
    }
    if num & native_pollnval() != 0 {
        peb = peb.add(PollEvent::PollInvalid);
    }
    peb.build()
}

/// Ask the host which of the requested events are ready on each capability.
///
/// The three sequences travel together: capability `i` is polled for the
/// events of `events[i]` and its observations land in `seen_events[i]`.
/// Mismatched lengths fail with `InvalidInput` before any capability or the
/// host is consulted.  A capability without a native handle takes no part in
/// the native call and observes nothing.  A native result other than "timed
/// out with none ready" is reported as the generic `IOError`; on any error
/// the observation buffer is left as it was.
pub fn poll<F: WasiFile>(
    selfs: &Vec<&F>,
    events: &Vec<PollEventSet>,
    seen_events: &mut Vec<PollEventSet>,
) -> (r: Result<(), WasiFsError>)
    ensures
        (r == Err::<(), WasiFsError>(WasiFsError::InvalidInput)) <==> !(selfs@.len()
            == events@.len() && events@.len() == old(seen_events)@.len()),
        r matches Err(k) ==> (k == WasiFsError::InvalidInput || k == WasiFsError::IOError)
            && final(seen_events)@ == old(seen_events)@,
        r is Ok ==> final(seen_events)@.len() == old(seen_events)@.len() && (forall|i: int|
            0 <= i < final(seen_events)@.len() ==> (#[trigger] final(seen_events)@[i]) & 31i16
                == final(seen_events)@[i]) && (forall|i: int|
            0 <= i < selfs@.len() && (#[trigger] selfs@[i].raw_fd_spec()) is None
                ==> final(seen_events)@[i] == 0i16),
{
    if !(selfs.len() == events.len() && events.len() == seen_events.len()) {
        return Err(WasiFsError::InvalidInput);
    }
    let mut idxs: Vec<usize> = Vec::new();
    let mut fds: Vec<nix::poll::PollFd> = Vec::new();
    let mut i: usize = 0;
    while i < selfs.len()
        invariant
            selfs@.len() == events@.len(),
            i <= selfs@.len(),
            idxs@.len() == fds@.len(),
            forall|k: int| 0 <= k < idxs@.len() ==> #[trigger] idxs@[k] < selfs@.len(),
            forall|k: int|
                0 <= k < idxs@.len() ==> (#[trigger] selfs@[idxs@[k] as int].raw_fd_spec())
                    is Some,
        decreases selfs@.len() - i,
    {
        let f = selfs[i];
        match f.get_raw_fd() {
            Some(host_fd) => {
                idxs.push(i);
                fds.push(native_pollfd_new(host_fd, poll_event_set_to_platform_poll_events(
                    events[i],
                )));
            },
            None => {},
        }
        i += 1;
    }
    let result = native_poll(&mut fds, POLL_TIMEOUT_MILLIS);
    match result {
        Ok(0) => {},
        _ => {
            return Err(WasiFsError::IOError);
        },
    }
    proof {
        lemma_mask_bits();
    }
    let mut j: usize = 0;
    while j < seen_events.len()
        invariant
            seen_events@.len() == old(seen_events)@.len(),
            j <= seen_events@.len(),
            forall|m: int| 0 <= m < j ==> #[trigger] seen_events@[m] == 0i16,
        decreases seen_events@.len() - j,
    {
        seen_events[j] = 0;
        j += 1;
    }
    proof {
        assert((0i16 & 31i16) == 0i16) by (bit_vector);
    }
    let mut k: usize = 0;
    while k < fds.len()
        invariant
            seen_events@.len() == old(seen_events)@.len(),
            selfs@.len() == seen_events@.len(),
            idxs@.len() == fds@.len(),
            forall|m: int| 0 <= m < idxs@.len() ==> #[trigger] idxs@[m] < seen_events@.len(),
            forall|m: int|
                0 <= m < idxs@.len() ==> (#[trigger] selfs@[idxs@[m] as int].raw_fd_spec())
                    is Some,
            forall|m: int|
                0 <= m < seen_events@.len() ==> (#[trigger] seen_events@[m]) & 31i16
                    == seen_events@[m],
            forall|m: int|
                0 <= m < selfs@.len() && (#[trigger] selfs@[m].raw_fd_spec()) is None
                    ==> seen_events@[m] == 0i16,
        decreases fds@.len() - k,
    {
        let observed = match native_pollfd_revents(&fds[k]) {
            Some(mask) => mask,
            None => 0,
        };
        proof {
            assert(selfs@[idxs@[k as int] as int].raw_fd_spec() is Some);
        }
        seen_events[idxs[k]] = platform_poll_events_to_pollevent_set(observed);
        k += 1;
    }
    Ok(())
}

} // verus!
