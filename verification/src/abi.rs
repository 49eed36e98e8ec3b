//! Version detection and the syscall binding tables.
//!
//! A guest module declares the namespace it imports from; that namespace
//! selects one of two ABI generations.  Each generation is an explicit, flat
//! name→implementation table.  The two tables are identical except for four
//! entries — file stat, seek, path stat and poll — which the legacy
//! generation binds to semantically adjusted implementations.  Keeping the
//! tables flat keeps the guest/host trust boundary auditable as the diff
//! between them.

use vstd::prelude::*;

verus! {

/// What went wrong while servicing a guest, as reported to the embedder.
#[derive(Copy, Clone, Debug, PartialEq, Eq, Structural)]
pub enum WasiError {
    /// The guest exited with this code.
    Exit(u32),
    /// The module's imports match no known ABI generation.
    UnknownWasiVersion,
}

/// One ABI generation a guest module may target.  `Snapshot1` and `Latest`
/// currently bind to the identical table.
#[derive(Copy, Clone, Debug, PartialEq, Eq, Structural)]
pub enum WasiVersion {
    /// The legacy generation, imported as `wasi_unstable`.
    Snapshot0,
    /// The current generation, imported as `wasi_snapshot_preview1`.
    Snapshot1,
    /// An alias for the newest supported generation.
    Latest,
}

/// One host implementation a table entry can bind to.  The four `Snapshot0`
/// variants are the legacy generation's semantically adjusted alternates.
#[derive(Copy, Clone, Debug, PartialEq, Eq, Structural)]
pub enum HostFunction {
    ArgsGet,
    ArgsSizesGet,
    ClockResGet,
    ClockTimeGet,
    EnvironGet,
    EnvironSizesGet,
    FdAdvise,
    FdAllocate,
    FdClose,
    FdDatasync,
    FdFdstatGet,
    FdFdstatSetFlags,
    FdFdstatSetRights,
    FdFilestatGet,
    FdFilestatSetSize,
    FdFilestatSetTimes,
    FdPread,
    FdPrestatGet,
    FdPrestatDirName,
    FdPwrite,
    FdRead,
    FdReaddir,
    FdRenumber,
    FdSeek,
    FdSync,
    FdTell,
    FdWrite,
    PathCreateDirectory,
    PathFilestatGet,
    PathFilestatSetTimes,
    PathLink,
    PathOpen,
    PathReadlink,
    PathRemoveDirectory,
    PathRename,
    PathSymlink,
    PathUnlinkFile,
    PollOneoff,
    ProcExit,
    ProcRaise,
    RandomGet,
    SchedYield,
    SockRecv,
    SockSend,
    SockShutdown,
    Snapshot0FdFilestatGet,
    Snapshot0FdSeek,
    Snapshot0PathFilestatGet,
    Snapshot0PollOneoff,
}

/// One binding: the import name a guest links against and the host
/// implementation it reaches.
#[derive(Debug)]
pub struct ImportEntry {
    /// The import's name inside its namespace.
    pub name: String,
    /// The implementation the name binds to.
    pub func: HostFunction,
}

/// The table a module instantiates against: one namespace, one flat list of
/// bindings.
#[derive(Debug)]
pub struct ImportObject {
    /// The namespace the guest imports the bindings from.
    pub namespace: String,
    /// The bindings, in the fixed table order.
    pub entries: Vec<ImportEntry>,
}

/// The import name at position `i` of either generation's table.
pub open spec fn entry_name_at(i: int) -> Seq<char> {
    if i == 0 {
        "args_get"@
    } else if i == 1 {
        "args_sizes_get"@
    } else if i == 2 {
        "clock_res_get"@
    } else if i == 3 {
        "clock_time_get"@
    } else if i == 4 {
        "environ_get"@
    } else if i == 5 {
        "environ_sizes_get"@
    } else if i == 6 {
        "fd_advise"@
    } else if i == 7 {
        "fd_allocate"@
    } else if i == 8 {
        "fd_close"@
    } else if i == 9 {
        "fd_datasync"@
    } else if i == 10 {
        "fd_fdstat_get"@
    } else if i == 11 {
        "fd_fdstat_set_flags"@
    } else if i == 12 {
        "fd_fdstat_set_rights"@
    } else if i == 13 {
        "fd_filestat_get"@
    } else if i == 14 {
        "fd_filestat_set_size"@
    } else if i == 15 {
        "fd_filestat_set_times"@
    } else if i == 16 {
        "fd_pread"@
    } else if i == 17 {
        "fd_prestat_get"@
    } else if i == 18 {
        "fd_prestat_dir_name"@
    } else if i == 19 {
        "fd_pwrite"@
    } else if i == 20 {
        "fd_read"@
    } else if i == 21 {
        "fd_readdir"@
    } else if i == 22 {
        "fd_renumber"@
    } else if i == 23 {
        "fd_seek"@
    } else if i == 24 {
        "fd_sync"@
    } else if i == 25 {
        "fd_tell"@
    } else if i == 26 {
        "fd_write"@
    } else if i == 27 {
        "path_create_directory"@
    } else if i == 28 {
        "path_filestat_get"@
    } else if i == 29 {
        "path_filestat_set_times"@
    } else if i == 30 {
        "path_link"@
    } else if i == 31 {
        "path_open"@
    } else if i == 32 {
        "path_readlink"@
    } else if i == 33 {
        "path_remove_directory"@
    } else if i == 34 {
        "path_rename"@
    } else if i == 35 {
        "path_symlink"@
    } else if i == 36 {
        "path_unlink_file"@
    } else if i == 37 {
        "poll_oneoff"@
    } else if i == 38 {
        "proc_exit"@
    } else if i == 39 {
        "proc_raise"@
    } else if i == 40 {
        "random_get"@
    } else if i == 41 {
        "sched_yield"@
    } else if i == 42 {
        "sock_recv"@
    } else if i == 43 {
        "sock_send"@
    } else {
        "sock_shutdown"@
    }
}

/// The current generation's implementation at position `i`.
pub open spec fn snapshot1_func_at(i: int) -> HostFunction {
    if i == 0 {
        HostFunction::ArgsGet
    } else if i == 1 {
        HostFunction::ArgsSizesGet
    } else if i == 2 {
        HostFunction::ClockResGet
    } else if i == 3 {
        HostFunction::ClockTimeGet
    } else if i == 4 {
        HostFunction::EnvironGet
    } else if i == 5 {
        HostFunction::EnvironSizesGet
    } else if i == 6 {
        HostFunction::FdAdvise
    } else if i == 7 {
        HostFunction::FdAllocate
    } else if i == 8 {
        HostFunction::FdClose
    } else if i == 9 {
        HostFunction::FdDatasync
    } else if i == 10 {
        HostFunction::FdFdstatGet
    } else if i == 11 {
        HostFunction::FdFdstatSetFlags
    } else if i == 12 {
        HostFunction::FdFdstatSetRights
    } else if i == 13 {
        HostFunction::FdFilestatGet
    } else if i == 14 {
        HostFunction::FdFilestatSetSize
    } else if i == 15 {
        HostFunction::FdFilestatSetTimes
    } else if i == 16 {
        HostFunction::FdPread
    } else if i == 17 {
        HostFunction::FdPrestatGet
    } else if i == 18 {
        HostFunction::FdPrestatDirName
    } else if i == 19 {
        HostFunction::FdPwrite
    } else if i == 20 {
        HostFunction::FdRead
    } else if i == 21 {
        HostFunction::FdReaddir
    } else if i == 22 {
        HostFunction::FdRenumber
    } else if i == 23 {
        HostFunction::FdSeek
    } else if i == 24 {
        HostFunction::FdSync
    } else if i == 25 {
        HostFunction::FdTell
    } else if i == 26 {
        HostFunction::FdWrite
    } else if i == 27 {
        HostFunction::PathCreateDirectory
    } else if i == 28 {
        HostFunction::PathFilestatGet
    } else if i == 29 {
        HostFunction::PathFilestatSetTimes
    } else if i == 30 {
        HostFunction::PathLink
    } else if i == 31 {
        HostFunction::PathOpen
    } else if i == 32 {
        HostFunction::PathReadlink
    } else if i == 33 {
        HostFunction::PathRemoveDirectory
    } else if i == 34 {
        HostFunction::PathRename
    } else if i == 35 {
        HostFunction::PathSymlink
    } else if i == 36 {
        HostFunction::PathUnlinkFile
    } else if i == 37 {
        HostFunction::PollOneoff
    } else if i == 38 {
        HostFunction::ProcExit
    } else if i == 39 {
        HostFunction::ProcRaise
    } else if i == 40 {
        HostFunction::RandomGet
    } else if i == 41 {
        HostFunction::SchedYield
    } else if i == 42 {
        HostFunction::SockRecv
    } else if i == 43 {
        HostFunction::SockSend
    } else {
        HostFunction::SockShutdown
    }
}

/// The legacy generation's implementation at position `i`: the current one,
/// except at the four adjusted entries.
pub open spec fn snapshot0_func_at(i: int) -> HostFunction {
    if i == 13 {
        HostFunction::Snapshot0FdFilestatGet
    } else if i == 23 {
        HostFunction::Snapshot0FdSeek
    } else if i == 28 {
        HostFunction::Snapshot0PathFilestatGet
    } else if i == 37 {
        HostFunction::Snapshot0PollOneoff
    } else {
        snapshot1_func_at(i)
    }
}

/// What a correctly built table for generation `v` looks like: the right
/// namespace, all forty-five names in order, each bound to its generation's
/// implementation.
pub open spec fn import_object_spec(r: ImportObject, v: WasiVersion) -> bool {
    &&& r.namespace@ == (if v is Snapshot0 {
        "wasi_unstable"@
    } else {
        "wasi_snapshot_preview1"@
    })
    &&& r.entries@.len() == 45
    &&& forall|i: int| 0 <= i < 45 ==> (#[trigger] r.entries@[i]).name@ == entry_name_at(i)
    &&& forall|i: int|
        0 <= i < 45 ==> (#[trigger] r.entries@[i]).func == (if v is Snapshot0 {
            snapshot0_func_at(i)
        } else {
            snapshot1_func_at(i)
        })
}

/// Whether some namespace in the list is `name`.
pub open spec fn contains_ns(nss: Seq<Seq<char>>, name: Seq<char>) -> bool {
    exists|i: int| 0 <= i < nss.len() && nss[i] == name
}

/// Whether every namespace in the list is `name`.
pub open spec fn all_ns(nss: Seq<Seq<char>>, name: Seq<char>) -> bool {
    forall|i: int| 0 <= i < nss.len() ==> nss[i] == name
}

/// Which generation a module's declared namespaces select.  The legacy
/// namespace wins when present; a module declaring no recognizable namespace
/// selects nothing — there is no silent default.  Strict selection asks that
/// every declared namespace agree.
pub open spec fn version_of(nss: Seq<Seq<char>>, strict: bool) -> Option<WasiVersion> {
    if strict {
        if nss.len() > 0 && all_ns(nss, "wasi_unstable"@) {
            Some(WasiVersion::Snapshot0)
        } else if nss.len() > 0 && all_ns(nss, "wasi_snapshot_preview1"@) {
            Some(WasiVersion::Snapshot1)
        } else {
            None
        }
    } else {
        if contains_ns(nss, "wasi_unstable"@) {
            Some(WasiVersion::Snapshot0)
        } else if contains_ns(nss, "wasi_snapshot_preview1"@) {
            Some(WasiVersion::Snapshot1)
        } else {
            None
        }
    }
}

proof fn lemma_ns_push(nss: Seq<Seq<char>>, x: Seq<char>, name: Seq<char>)
    ensures
        contains_ns(nss.push(x), name) <==> (contains_ns(nss, name) || x == name),
        all_ns(nss.push(x), name) <==> (all_ns(nss, name) && x == name),
{
    if contains_ns(nss.push(x), name) {
        let i = choose|i: int| 0 <= i < nss.push(x).len() && nss.push(x)[i] == name;
        if i < nss.len() {
            assert(nss[i] == name);
        }
    }
    if contains_ns(nss, name) {
        let i = choose|i: int| 0 <= i < nss.len() && nss[i] == name;
        assert(nss.push(x)[i] == name);
    }
    if x == name {
        assert(nss.push(x)[nss.len() as int] == name);
    }
    if all_ns(nss.push(x), name) {
        assert forall|i: int| 0 <= i < nss.len() implies nss[i] == name by {
            assert(nss.push(x)[i] == name);
        }
        assert(nss.push(x)[nss.len() as int] == x);
    }
    if all_ns(nss, name) && x == name {
        assert forall|i: int| 0 <= i < nss.push(x).len() implies nss.push(x)[i] == name by {
            if i < nss.len() {
                assert(nss.push(x)[i] == nss[i]);
            }
        }
    }
}

/// Inspect a module's declared import namespaces and name the ABI generation
/// they select, if any.
pub fn get_wasi_version(namespaces: &Vec<String>, strict: bool) -> (r: Option<WasiVersion>)
    ensures
        r == version_of(namespaces@.map_values(|s: String| s@), strict),
{
    let legacy: String = "wasi_unstable".to_owned();
    let current: String = "wasi_snapshot_preview1".to_owned();
    let ghost nss = namespaces@.map_values(|s: String| s@);
    let mut has_legacy = false;
    let mut has_current = false;
    let mut all_legacy = true;
    let mut all_current = true;
    let mut i: usize = 0;
    while i < namespaces.len()
        invariant
            i <= namespaces@.len(),
            legacy@ == "wasi_unstable"@,
            current@ == "wasi_snapshot_preview1"@,
            nss == namespaces@.map_values(|s: String| s@),
            has_legacy == contains_ns(nss.take(i as int), "wasi_unstable"@),
            has_current == contains_ns(nss.take(i as int), "wasi_snapshot_preview1"@),
            all_legacy == all_ns(nss.take(i as int), "wasi_unstable"@),
            all_current == all_ns(nss.take(i as int), "wasi_snapshot_preview1"@),
        decreases namespaces@.len() - i,
    {
        let ns = &namespaces[i];
        proof {
            assert(nss[i as int] == namespaces@[i as int]@);
            assert(nss.take(i + 1) =~= nss.take(i as int).push(nss[i as int]));
            lemma_ns_push(nss.take(i as int), nss[i as int], "wasi_unstable"@);
            lemma_ns_push(nss.take(i as int), nss[i as int], "wasi_snapshot_preview1"@);
        }
        if *ns == legacy {
            has_legacy = true;
        } else {
            all_legacy = false;
        }
        if *ns == current {
            has_current = true;
        } else {
            all_current = false;
        }
        i += 1;
    }
    proof {
        assert(nss.take(namespaces@.len() as int) =~= nss);
    }
    if strict {
        if namespaces.len() > 0 && all_legacy {
            Some(WasiVersion::Snapshot0)
        } else if namespaces.len() > 0 && all_current {
            Some(WasiVersion::Snapshot1)
        } else {
            None
        }
    } else {
        if has_legacy {
            Some(WasiVersion::Snapshot0)
        } else if has_current {
            Some(WasiVersion::Snapshot1)
        } else {
            None
        }
    }
}

/// Whether the namespaces select any ABI generation at all.
pub fn is_wasi_module(namespaces: &Vec<String>, strict: bool) -> (r: bool)
    ensures
        r == (version_of(namespaces@.map_values(|s: String| s@), strict) is Some),
{
    get_wasi_version(namespaces, strict).is_some()
}

fn entry(name: &str, func: HostFunction) -> (r: ImportEntry)
    ensures
        r.name@ == name@,
        r.func == func,
{
    ImportEntry { name: name.to_owned(), func }
}

/// The legacy generation's table, flat and in full, under the
/// `wasi_unstable` namespace.
pub fn generate_import_object_snapshot0() -> (r: ImportObject)
    ensures
        import_object_spec(r, WasiVersion::Snapshot0),
{
    let mut entries: Vec<ImportEntry> = Vec::new();
    entries.push(entry("args_get", HostFunction::ArgsGet));
    entries.push(entry("args_sizes_get", HostFunction::ArgsSizesGet));
    entries.push(entry("clock_res_get", HostFunction::ClockResGet));
    entries.push(entry("clock_time_get", HostFunction::ClockTimeGet));
    entries.push(entry("environ_get", HostFunction::EnvironGet));
    entries.push(entry("environ_sizes_get", HostFunction::EnvironSizesGet));
    entries.push(entry("fd_advise", HostFunction::FdAdvise));
    entries.push(entry("fd_allocate", HostFunction::FdAllocate));
    entries.push(entry("fd_close", HostFunction::FdClose));
    entries.push(entry("fd_datasync", HostFunction::FdDatasync));
    entries.push(entry("fd_fdstat_get", HostFunction::FdFdstatGet));
    entries.push(entry("fd_fdstat_set_flags", HostFunction::FdFdstatSetFlags));
    entries.push(entry("fd_fdstat_set_rights", HostFunction::FdFdstatSetRights));
    entries.push(entry("fd_filestat_get", HostFunction::Snapshot0FdFilestatGet));
    entries.push(entry("fd_filestat_set_size", HostFunction::FdFilestatSetSize));
    entries.push(entry("fd_filestat_set_times", HostFunction::FdFilestatSetTimes));
    entries.push(entry("fd_pread", HostFunction::FdPread));
    entries.push(entry("fd_prestat_get", HostFunction::FdPrestatGet));
    entries.push(entry("fd_prestat_dir_name", HostFunction::FdPrestatDirName));
    entries.push(entry("fd_pwrite", HostFunction::FdPwrite));
    entries.push(entry("fd_read", HostFunction::FdRead));
    entries.push(entry("fd_readdir", HostFunction::FdReaddir));
    entries.push(entry("fd_renumber", HostFunction::FdRenumber));
    entries.push(entry("fd_seek", HostFunction::Snapshot0FdSeek));
    entries.push(entry("fd_sync", HostFunction::FdSync));
    entries.push(entry("fd_tell", HostFunction::FdTell));
    entries.push(entry("fd_write", HostFunction::FdWrite));
    entries.push(entry("path_create_directory", HostFunction::PathCreateDirectory));
    entries.push(entry("path_filestat_get", HostFunction::Snapshot0PathFilestatGet));
    entries.push(entry("path_filestat_set_times", HostFunction::PathFilestatSetTimes));
    entries.push(entry("path_link", HostFunction::PathLink));
    entries.push(entry("path_open", HostFunction::PathOpen));
    entries.push(entry("path_readlink", HostFunction::PathReadlink));
    entries.push(entry("path_remove_directory", HostFunction::PathRemoveDirectory));
    entries.push(entry("path_rename", HostFunction::PathRename));
    entries.push(entry("path_symlink", HostFunction::PathSymlink));
    entries.push(entry("path_unlink_file", HostFunction::PathUnlinkFile));
    entries.push(entry("poll_oneoff", HostFunction::Snapshot0PollOneoff));
    entries.push(entry("proc_exit", HostFunction::ProcExit));
    entries.push(entry("proc_raise", HostFunction::ProcRaise));
    entries.push(entry("random_get", HostFunction::RandomGet));
    entries.push(entry("sched_yield", HostFunction::SchedYield));
    entries.push(entry("sock_recv", HostFunction::SockRecv));
    entries.push(entry("sock_send", HostFunction::SockSend));
    entries.push(entry("sock_shutdown", HostFunction::SockShutdown));
    ImportObject { namespace: "wasi_unstable".to_owned(), entries }
}

/// The current generation's table, flat and in full, under the
/// `wasi_snapshot_preview1` namespace.
pub fn generate_import_object_snapshot1() -> (r: ImportObject)
    ensures
        import_object_spec(r, WasiVersion::Snapshot1),
{
    let mut entries: Vec<ImportEntry> = Vec::new();
    entries.push(entry("args_get", HostFunction::ArgsGet));
    entries.push(entry("args_sizes_get", HostFunction::ArgsSizesGet));
    entries.push(entry("clock_res_get", HostFunction::ClockResGet));
    entries.push(entry("clock_time_get", HostFunction::ClockTimeGet));
    entries.push(entry("environ_get", HostFunction::EnvironGet));
    entries.push(entry("environ_sizes_get", HostFunction::EnvironSizesGet));
    entries.push(entry("fd_advise", HostFunction::FdAdvise));
    entries.push(entry("fd_allocate", HostFunction::FdAllocate));
    entries.push(entry("fd_close", HostFunction::FdClose));
    entries.push(entry("fd_datasync", HostFunction::FdDatasync));
    entries.push(entry("fd_fdstat_get", HostFunction::FdFdstatGet));
    entries.push(entry("fd_fdstat_set_flags", HostFunction::FdFdstatSetFlags));
    entries.push(entry("fd_fdstat_set_rights", HostFunction::FdFdstatSetRights));
    entries.push(entry("fd_filestat_get", HostFunction::FdFilestatGet));
    entries.push(entry("fd_filestat_set_size", HostFunction::FdFilestatSetSize));
    entries.push(entry("fd_filestat_set_times", HostFunction::FdFilestatSetTimes));
    entries.push(entry("fd_pread", HostFunction::FdPread));
    entries.push(entry("fd_prestat_get", HostFunction::FdPrestatGet));
    entries.push(entry("fd_prestat_dir_name", HostFunction::FdPrestatDirName));
    entries.push(entry("fd_pwrite", HostFunction::FdPwrite));
    entries.push(entry("fd_read", HostFunction::FdRead));
    entries.push(entry("fd_readdir", HostFunction::FdReaddir));
    entries.push(entry("fd_renumber", HostFunction::FdRenumber));
    entries.push(entry("fd_seek", HostFunction::FdSeek));
    entries.push(entry("fd_sync", HostFunction::FdSync));
    entries.push(entry("fd_tell", HostFunction::FdTell));
    entries.push(entry("fd_write", HostFunction::FdWrite));
    entries.push(entry("path_create_directory", HostFunction::PathCreateDirectory));
    entries.push(entry("path_filestat_get", HostFunction::PathFilestatGet));
    entries.push(entry("path_filestat_set_times", HostFunction::PathFilestatSetTimes));
    entries.push(entry("path_link", HostFunction::PathLink));
    entries.push(entry("path_open", HostFunction::PathOpen));
    entries.push(entry("path_readlink", HostFunction::PathReadlink));
    entries.push(entry("path_remove_directory", HostFunction::PathRemoveDirectory));
    entries.push(entry("path_rename", HostFunction::PathRename));
    entries.push(entry("path_symlink", HostFunction::PathSymlink));
    entries.push(entry("path_unlink_file", HostFunction::PathUnlinkFile));
    entries.push(entry("poll_oneoff", HostFunction::PollOneoff));
    entries.push(entry("proc_exit", HostFunction::ProcExit));
    entries.push(entry("proc_raise", HostFunction::ProcRaise));
    entries.push(entry("random_get", HostFunction::RandomGet));
    entries.push(entry("sched_yield", HostFunction::SchedYield));
    entries.push(entry("sock_recv", HostFunction::SockRecv));
    entries.push(entry("sock_send", HostFunction::SockSend));
    entries.push(entry("sock_shutdown", HostFunction::SockShutdown));
    ImportObject { namespace: "wasi_snapshot_preview1".to_owned(), entries }
}

/// The table for a detected ABI generation.
pub fn generate_import_object_from_env(version: WasiVersion) -> (r: ImportObject)
    ensures
        import_object_spec(r, version),
{
    match version {
        WasiVersion::Snapshot0 => generate_import_object_snapshot0(),
        WasiVersion::Snapshot1 | WasiVersion::Latest => generate_import_object_snapshot1(),
    }
}

/// Law: a module declaring only the legacy namespace binds `fd_filestat_get`
/// to the legacy implementation; one declaring only the current namespace
/// binds it to the current implementation; one declaring neither selects no
/// generation at all.
pub proof fn lemma_version_selects_filestat_binding(
    legacy_table: ImportObject,
    current_table: ImportObject,
)
    requires
        import_object_spec(legacy_table, version_of(seq!["wasi_unstable"@], false).unwrap()),
        import_object_spec(
            current_table,
            version_of(seq!["wasi_snapshot_preview1"@], false).unwrap(),
        ),
    ensures
        legacy_table.entries@[13].name@ == "fd_filestat_get"@,
        legacy_table.entries@[13].func == HostFunction::Snapshot0FdFilestatGet,
        current_table.entries@[13].name@ == "fd_filestat_get"@,
        current_table.entries@[13].func == HostFunction::FdFilestatGet,
{
    assert(seq!["wasi_unstable"@][0] == "wasi_unstable"@);
    assert(contains_ns(seq!["wasi_unstable"@], "wasi_unstable"@));
    assert(seq!["wasi_snapshot_preview1"@][0] == "wasi_snapshot_preview1"@);
    assert(!contains_ns(seq!["wasi_snapshot_preview1"@], "wasi_unstable"@)) by {
        reveal_strlit("wasi_unstable");
        reveal_strlit("wasi_snapshot_preview1");
    }
    assert(contains_ns(seq!["wasi_snapshot_preview1"@], "wasi_snapshot_preview1"@));
}

/// Law: the two generations' tables agree everywhere except the four
/// documented entries, where the legacy generation takes its adjusted
/// implementations.
pub proof fn lemma_generations_differ_at_four_entries()
    ensures
        forall|i: int|
            0 <= i < 45 && i != 13 && i != 23 && i != 28 && i != 37 ==> snapshot0_func_at(i)
                == snapshot1_func_at(i),
        snapshot0_func_at(13) == HostFunction::Snapshot0FdFilestatGet,
        snapshot0_func_at(23) == HostFunction::Snapshot0FdSeek,
        snapshot0_func_at(28) == HostFunction::Snapshot0PathFilestatGet,
        snapshot0_func_at(37) == HostFunction::Snapshot0PollOneoff,
        snapshot1_func_at(13) == HostFunction::FdFilestatGet,
        snapshot1_func_at(23) == HostFunction::FdSeek,
        snapshot1_func_at(28) == HostFunction::PathFilestatGet,
        snapshot1_func_at(37) == HostFunction::PollOneoff,
{
}

} // verus!
