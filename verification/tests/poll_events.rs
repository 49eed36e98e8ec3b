//! The readiness-event set: building, iterating, translating, and the poll
//! bridge's argument checking.

use wasi_core::file::Stdout;
use wasi_core::file::WasiFile;
use wasi_core::fs_error::WasiFsError;
use wasi_core::poll::poll;
use wasi_core::poll::poll_event_set_to_platform_poll_events;
use wasi_core::poll::platform_poll_events_to_pollevent_set;
use wasi_core::poll_event::PollEvent;
use wasi_core::poll_event::PollEventBuilder;
use wasi_core::poll_event::iterate_poll_events;

#[test]
fn builder_starts_empty() {
    assert_eq!(PollEventBuilder::new().build(), 0);
}

#[test]
fn builder_adds_bits() {
    assert_eq!(PollEventBuilder::new().add(PollEvent::PollIn).build(), 1);
    assert_eq!(PollEventBuilder::new().add(PollEvent::PollOut).build(), 2);
    assert_eq!(PollEventBuilder::new().add(PollEvent::PollError).build(), 4);
    assert_eq!(PollEventBuilder::new().add(PollEvent::PollHangUp).build(), 8);
    assert_eq!(PollEventBuilder::new().add(PollEvent::PollInvalid).build(), 16);
}

#[test]
fn builder_add_is_idempotent_and_order_free() {
    let a = PollEventBuilder::new().add(PollEvent::PollOut).add(PollEvent::PollIn).build();
    let b = PollEventBuilder::new().add(PollEvent::PollIn).add(PollEvent::PollOut).build();
    let c = PollEventBuilder::new()
        .add(PollEvent::PollIn)
        .add(PollEvent::PollOut)
        .add(PollEvent::PollIn)
        .build();
    assert_eq!(a, 3);
    assert_eq!(b, 3);
    assert_eq!(c, 3);
}

#[test]
fn from_i16_names_single_bits_only() {
    assert_eq!(PollEvent::from_i16(1), Some(PollEvent::PollIn));
    assert_eq!(PollEvent::from_i16(2), Some(PollEvent::PollOut));
    assert_eq!(PollEvent::from_i16(4), Some(PollEvent::PollError));
    assert_eq!(PollEvent::from_i16(8), Some(PollEvent::PollHangUp));
    assert_eq!(PollEvent::from_i16(16), Some(PollEvent::PollInvalid));
    assert_eq!(PollEvent::from_i16(0), None);
    assert_eq!(PollEvent::from_i16(3), None);
    assert_eq!(PollEvent::from_i16(32), None);
}

#[test]
fn iteration_is_ascending_bit_order_not_insertion_order() {
    // Writable added before readable, yet readable comes out first.
    let set = PollEventBuilder::new().add(PollEvent::PollOut).add(PollEvent::PollIn).build();
    let mut iter = iterate_poll_events(set);
    assert_eq!(iter.next(), Some(PollEvent::PollIn));
    assert_eq!(iter.next(), Some(PollEvent::PollOut));
    assert_eq!(iter.next(), None);
    assert_eq!(iter.next(), None);
}

#[test]
fn iteration_yields_each_kind_once() {
    let set = PollEventBuilder::new()
        .add(PollEvent::PollInvalid)
        .add(PollEvent::PollError)
        .add(PollEvent::PollInvalid)
        .build();
    let mut iter = iterate_poll_events(set);
    assert_eq!(iter.next(), Some(PollEvent::PollError));
    assert_eq!(iter.next(), Some(PollEvent::PollInvalid));
    assert_eq!(iter.next(), None);
}

#[test]
fn iteration_drops_unrecognized_bits_silently() {
    assert_eq!(iterate_poll_events(32).next(), None);
    let mut iter = iterate_poll_events(32 | 1);
    assert_eq!(iter.next(), Some(PollEvent::PollIn));
    assert_eq!(iter.next(), None);
    let mut all = iterate_poll_events(-1);
    assert_eq!(all.next(), Some(PollEvent::PollIn));
    assert_eq!(all.next(), Some(PollEvent::PollOut));
    assert_eq!(all.next(), Some(PollEvent::PollError));
    assert_eq!(all.next(), Some(PollEvent::PollHangUp));
    assert_eq!(all.next(), Some(PollEvent::PollInvalid));
    assert_eq!(all.next(), None);
}

#[test]
fn portable_to_native_translation() {
    // Portable bits 1/2/4/8/16 become native bits 1/4/8/16/32.
    assert_eq!(poll_event_set_to_platform_poll_events(0), 0);
    assert_eq!(poll_event_set_to_platform_poll_events(1), 1);
    assert_eq!(poll_event_set_to_platform_poll_events(2), 4);
    assert_eq!(poll_event_set_to_platform_poll_events(4), 8);
    assert_eq!(poll_event_set_to_platform_poll_events(8), 16);
    assert_eq!(poll_event_set_to_platform_poll_events(16), 32);
    assert_eq!(poll_event_set_to_platform_poll_events(3), 5);
    assert_eq!(poll_event_set_to_platform_poll_events(31), 61);
}

#[test]
fn native_to_portable_translation() {
    assert_eq!(platform_poll_events_to_pollevent_set(0), 0);
    assert_eq!(platform_poll_events_to_pollevent_set(1), 1);
    assert_eq!(platform_poll_events_to_pollevent_set(4), 2);
    assert_eq!(platform_poll_events_to_pollevent_set(8), 4);
    assert_eq!(platform_poll_events_to_pollevent_set(16), 8);
    assert_eq!(platform_poll_events_to_pollevent_set(32), 16);
    assert_eq!(platform_poll_events_to_pollevent_set(5), 3);
    assert_eq!(platform_poll_events_to_pollevent_set(61), 31);
    // The native POLLPRI bit has no portable name and is dropped.
    assert_eq!(platform_poll_events_to_pollevent_set(2), 0);
}

#[test]
fn translation_round_trip_on_portable_sets() {
    for set in 0i16..32i16 {
        let native = poll_event_set_to_platform_poll_events(set);
        assert_eq!(platform_poll_events_to_pollevent_set(native), set);
    }
}

#[test]
fn poll_rejects_mismatched_lengths_before_touching_anything() {
    let a = Stdout;
    let b = Stdout;
    let files: Vec<&Stdout> = vec![&a, &b];
    let events: Vec<i16> = vec![1, 1];
    let mut seen: Vec<i16> = vec![0, 0, 0];
    let r = poll(&files, &events, &mut seen);
    assert_eq!(r, Err(WasiFsError::InvalidInput));
    assert_eq!(seen, vec![0, 0, 0]);
}

#[test]
fn poll_rejects_short_event_list() {
    let a = Stdout;
    let files: Vec<&Stdout> = vec![&a];
    let events: Vec<i16> = vec![];
    let mut seen: Vec<i16> = vec![0];
    assert_eq!(poll(&files, &events, &mut seen), Err(WasiFsError::InvalidInput));
}

#[test]
fn stdout_capability_has_a_native_handle() {
    assert_eq!(Stdout.get_raw_fd(), Some(1));
}

/// A capability that counts how often the poll bridge looks at it.
struct CountingFile {
    looked_at: std::cell::Cell<u32>,
}

impl WasiFile for CountingFile {
    fn read(&mut self, _buf: &mut Vec<u8>) -> Result<usize, WasiFsError> {
        Err(WasiFsError::NotSupported)
    }
    fn write(&mut self, _buf: &[u8]) -> Result<usize, WasiFsError> {
        Err(WasiFsError::NotSupported)
    }
    fn seek(
        &mut self,
        _pos: wasi_core::file::SeekPosition,
    ) -> Result<u64, WasiFsError> {
        Err(WasiFsError::NotSupported)
    }
    fn last_accessed(&self) -> u64 {
        0
    }
    fn last_modified(&self) -> u64 {
        0
    }
    fn created_time(&self) -> u64 {
        0
    }
    fn set_last_accessed(&mut self, _t: u64) -> Result<(), WasiFsError> {
        Err(WasiFsError::NotSupported)
    }
    fn set_last_modified(&mut self, _t: u64) -> Result<(), WasiFsError> {
        Err(WasiFsError::NotSupported)
    }
    fn set_created_time(&mut self, _t: u64) -> Result<(), WasiFsError> {
        Err(WasiFsError::NotSupported)
    }
    fn size(&self) -> u64 {
        0
    }
    fn set_len(&mut self, _n: u64) -> Result<(), WasiFsError> {
        Err(WasiFsError::NotSupported)
    }
    fn unlink(&mut self) -> Result<(), WasiFsError> {
        Err(WasiFsError::NotSupported)
    }
    fn sync_to_disk(&self) -> Result<(), WasiFsError> {
        Err(WasiFsError::NotSupported)
    }
    fn rename_file(&mut self, _new_name: &str) -> Result<(), WasiFsError> {
        Err(WasiFsError::NotSupported)
    }
    fn bytes_available(&self) -> Result<usize, WasiFsError> {
        Err(WasiFsError::NotSupported)
    }
    fn get_raw_fd(&self) -> Option<i32> {
        self.looked_at.set(self.looked_at.get() + 1);
        None
    }
}

#[test]
fn poll_length_check_comes_before_any_capability_access() {
    let a = CountingFile { looked_at: std::cell::Cell::new(0) };
    let b = CountingFile { looked_at: std::cell::Cell::new(0) };
    let files: Vec<&CountingFile> = vec![&a, &b];
    let events: Vec<i16> = vec![1, 1];
    let mut seen: Vec<i16> = vec![0, 0, 0];
    let r = poll(&files, &events, &mut seen);
    assert_eq!(r, Err(WasiFsError::InvalidInput));
    assert_eq!(a.looked_at.get(), 0);
    assert_eq!(b.looked_at.get(), 0);
}

#[test]
fn poll_without_native_handles_observes_nothing() {
    let a = CountingFile { looked_at: std::cell::Cell::new(0) };
    let files: Vec<&CountingFile> = vec![&a];
    let events: Vec<i16> = vec![1];
    let mut seen: Vec<i16> = vec![7];
    let r = poll(&files, &events, &mut seen);
    assert_eq!(r, Ok(()));
    assert_eq!(seen, vec![0]);
    assert_eq!(a.looked_at.get(), 1);
}
