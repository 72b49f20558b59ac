//! The command line of the `vshadow` tool, as a value.
use vstd::prelude::*;
use crate::utils::{opt_view, views};

verus! {

/// The options of one run of the tool.
#[derive(Debug)]
pub struct Args {
    pub create: bool,
    /// Creates persistent shadow copies
    pub persistent: bool,
    /// Creates shadow copies without involving writers
    pub no_wirters: bool,
    /// Creates Differential Hardware shadow copies
    pub add_differential: bool,
    /// Creates Plex Hardware shadow copies
    pub add_plex: bool,
    /// Creates Shadow Copies for Shared Folders (Client accessible)
    pub create_shadow_copy_for_shared_folders: bool,
    /// Verifies that a certain writer/component is included
    pub writer_included: Option<String>,
    /// Excludes a certain writer/component from the shadow copy
    pub writer_excluded: Option<String>,
    /// Creates a transportable shadow copy and saves the Backup Components
    /// document into the given file, for a later import or restore.
    pub transportable: Option<String>,
    /// Creates a non-transportable shadow copy and saves the Backup Components
    /// document into the given file, for a later restore.
    pub non_transportable: Option<String>,
    /// Generates a CMD file with environment variables related to created
    /// shadow copies (the shadow copy IDs, the shadow copy set ID, etc)
    pub script: Option<String>,
    /// Volumes to take shadow copies of
    pub volumes: Vec<String>,
    /// Imports shadow copies
    pub import: bool,
    /// Backup components file, created earlier with a transportable shadow copy
    pub import_file: Option<String>,
    /// A shell command to run between the shadow set creation and exit
    pub exec_cmd: Option<String>,
    pub query: bool,
    pub delete: bool,
    pub breaks: bool,
    /// Break the shadow copy set into standalone writable volumes
    pub writable: bool,
    pub exposing: bool,
    /// Local directory or unused drive letter
    pub local: Option<String>,
    /// Unused share name and optional path from the shadow's root
    pub remote: Option<String>,
    /// Writer operation
    pub writers: bool,
    /// Writer list
    pub writer_status: bool,
    /// Writer summary metadata
    pub writer_meta: bool,
    /// Writer full metadata
    pub writer_meta2: bool,
    pub wrestore: bool,
    /// Backup components file, created earlier with a shadow copy
    pub wr_file: Option<String>,
    /// Perform a simulated restore
    pub wr_simulate: bool,
    /// All objects
    pub all: bool,
    /// Snapshot set id
    pub snapshot_set_id: Option<String>,
    /// Snapshot id
    pub snapshot_id: Option<String>,
    /// Wait for the user before exiting, which keeps non-persistent shadows alive
    pub wait: bool,
    /// Verbose output
    pub tracing: bool,
}

/// The switches of [`Args`].
#[derive(Clone, Copy, Debug, PartialEq, Eq, Structural)]
pub enum Switch {
    Create,
    Persistent,
    NoWirters,
    AddDifferential,
    AddPlex,
    CreateShadowCopyForSharedFolders,
    Import,
    Query,
    Delete,
    Breaks,
    Writable,
    Exposing,
    Writers,
    WriterStatus,
    WriterMeta,
    WriterMeta2,
    Wrestore,
    WrSimulate,
    All,
    Wait,
    Tracing,
}

/// The text values of [`Args`].
#[derive(Clone, Copy, Debug, PartialEq, Eq, Structural)]
pub enum Text {
    WriterIncluded,
    WriterExcluded,
    Transportable,
    NonTransportable,
    Script,
    ImportFile,
    ExecCmd,
    Local,
    Remote,
    WrFile,
    SnapshotSetId,
    SnapshotId,
}
/// Why a command line was refused.
#[derive(Debug)]
pub enum ArgsError {
    /// An option that takes a value was given none (`-s` or `-s=`).
    EmptyValue(String),
    /// An option with a value that the tool does not know.
    UnsupportedKey(String),
}

/// The abstract value of [`ArgsError`].
pub enum ArgsErrorView {
    EmptyValue(Seq<char>),
    UnsupportedKey(Seq<char>),
}

impl View for ArgsError {
    type V = ArgsErrorView;

    open spec fn view(&self) -> ArgsErrorView {
        match self {
            ArgsError::EmptyValue(k) => ArgsErrorView::EmptyValue(k@),
            ArgsError::UnsupportedKey(k) => ArgsErrorView::UnsupportedKey(k@),
        }
    }
}

/// The length of the key of `s`: the characters before its first `=`, or
/// all of them when it has none.
pub open spec fn key_len(s: Seq<char>) -> nat
    decreases s.len(),
{
    if s.len() == 0 || s[0] == '=' {
        0
    } else {
        1 + key_len(s.subrange(1, s.len() as int))
    }
}

/// `key=value` split at the first `=`; an empty or missing value is `None`.
pub open spec fn split_kv_spec(s: Seq<char>) -> (Seq<char>, Option<Seq<char>>) {
    let n = key_len(s) as int;
    if n == s.len() {
        (s, None)
    } else if n + 1 < s.len() {
        (s.take(n), Some(s.skip(n + 1)))
    } else {
        (s.take(n), None)
    }
}

/// The options that switch settings on by themselves.
#[derive(Clone, Copy, Debug, PartialEq, Eq, Structural)]
pub enum Flag {
    /// `-p`
    Persistent,
    /// `-nw`
    NoWriters,
    /// `-ad`
    AddDifferential,
    /// `-ap`
    AddPlex,
    /// `-scsf`
    SharedFolders,
    /// `-q`
    QueryAll,
    /// `-da`
    DeleteAll,
    /// `-ws`
    WriterStatus,
    /// `-wm`
    WriterMeta,
    /// `-wm2`
    WriterMetaFull,
    /// `-wait`
    Wait,
    /// `-tracing`
    Tracing,
}

/// The options that take a value, written `-key=value`.
#[derive(Clone, Copy, Debug, PartialEq, Eq, Structural)]
pub enum Key {
    /// `-wi=`
    WriterIncluded,
    /// `-wx=`
    WriterExcluded,
    /// `-script=`
    Script,
    /// `-exec=`
    Exec,
    /// `-i=`
    Import,
    /// `-qx=`
    QuerySet,
    /// `-s=`
    QuerySnapshot,
    /// `-dx=`
    DeleteSet,
    /// `-ds=`
    DeleteSnapshot,
    /// `-b=`
    BreakSet,
    /// `-bw=`
    BreakWritable,
    /// `-el=`
    ExposeLocal,
    /// `-er=`
    ExposeRemote,
    /// `-r=`
    Restore,
    /// `-rs=`
    RestoreSimulate,
}

/// The flag an argument spells, if any.
pub open spec fn flag_of(arg: Seq<char>) -> Option<Flag> {
    if arg == "-p"@ {
        Some(Flag::Persistent)
    } else if arg == "-nw"@ {
        Some(Flag::NoWriters)
    } else if arg == "-ad"@ {
        Some(Flag::AddDifferential)
    } else if arg == "-ap"@ {
        Some(Flag::AddPlex)
    } else if arg == "-scsf"@ {
        Some(Flag::SharedFolders)
    } else if arg == "-q"@ {
        Some(Flag::QueryAll)
    } else if arg == "-da"@ {
        Some(Flag::DeleteAll)
    } else if arg == "-ws"@ {
        Some(Flag::WriterStatus)
    } else if arg == "-wm"@ {
        Some(Flag::WriterMeta)
    } else if arg == "-wm2"@ {
        Some(Flag::WriterMetaFull)
    } else if arg == "-wait"@ {
        Some(Flag::Wait)
    } else if arg == "-tracing"@ {
        Some(Flag::Tracing)
    } else {
        None
    }
}

/// The option a key spells, if any.
pub open spec fn key_of(k: Seq<char>) -> Option<Key> {
    if k == "-wi"@ {
        Some(Key::WriterIncluded)
    } else if k == "-wx"@ {
        Some(Key::WriterExcluded)
    } else if k == "-script"@ {
        Some(Key::Script)
    } else if k == "-exec"@ {
        Some(Key::Exec)
    } else if k == "-i"@ {
        Some(Key::Import)
    } else if k == "-qx"@ {
        Some(Key::QuerySet)
    } else if k == "-s"@ {
        Some(Key::QuerySnapshot)
    } else if k == "-dx"@ {
        Some(Key::DeleteSet)
    } else if k == "-ds"@ {
        Some(Key::DeleteSnapshot)
    } else if k == "-b"@ {
        Some(Key::BreakSet)
    } else if k == "-bw"@ {
        Some(Key::BreakWritable)
    } else if k == "-el"@ {
        Some(Key::ExposeLocal)
    } else if k == "-er"@ {
        Some(Key::ExposeRemote)
    } else if k == "-r"@ {
        Some(Key::Restore)
    } else if k == "-rs"@ {
        Some(Key::RestoreSimulate)
    } else {
        None
    }
}

/// Whether a flag turns a switch on.
pub open spec fn flag_turns_on(f: Flag, s: Switch) -> bool {
    match f {
        Flag::Persistent => s == Switch::Create || s == Switch::Persistent,
        Flag::NoWriters => s == Switch::Create || s == Switch::NoWirters,
        Flag::AddDifferential => s == Switch::Create || s == Switch::AddDifferential,
        Flag::AddPlex => s == Switch::Create || s == Switch::AddPlex,
        Flag::SharedFolders => s == Switch::Create || s == Switch::CreateShadowCopyForSharedFolders,
        Flag::QueryAll => s == Switch::Query || s == Switch::All,
        Flag::DeleteAll => s == Switch::Delete || s == Switch::All,
        Flag::WriterStatus => s == Switch::Writers || s == Switch::WriterStatus,
        Flag::WriterMeta => s == Switch::Writers || s == Switch::WriterMeta,
        Flag::WriterMetaFull => s == Switch::Writers || s == Switch::WriterMeta2,
        Flag::Wait => s == Switch::Wait,
        Flag::Tracing => s == Switch::Tracing,
    }
}
/// Whether a keyed option turns a switch on.
pub open spec fn key_turns_on(k: Key, s: Switch) -> bool {
    match k {
        Key::WriterIncluded => s == Switch::Create,
        Key::WriterExcluded => s == Switch::Create,
        Key::Script => s == Switch::Create,
        Key::Exec => false,
        Key::Import => s == Switch::Import,
        Key::QuerySet => s == Switch::Query,
        Key::QuerySnapshot => s == Switch::Query,
        Key::DeleteSet => s == Switch::Delete,
        Key::DeleteSnapshot => s == Switch::Delete,
        Key::BreakSet => s == Switch::Breaks,
        Key::BreakWritable => s == Switch::Breaks,
        Key::ExposeLocal => s == Switch::Exposing,
        Key::ExposeRemote => s == Switch::Exposing,
        Key::Restore => s == Switch::Wrestore,
        Key::RestoreSimulate => s == Switch::Wrestore || s == Switch::WrSimulate,
    }
}
/// The text value that a keyed option sets.
pub open spec fn key_text(k: Key) -> Text {
    match k {
        Key::WriterIncluded => Text::WriterIncluded,
        Key::WriterExcluded => Text::WriterExcluded,
        Key::Script => Text::Script,
        Key::Exec => Text::ExecCmd,
        Key::Import => Text::ImportFile,
        Key::QuerySet => Text::SnapshotSetId,
        Key::QuerySnapshot => Text::SnapshotId,
        Key::DeleteSet => Text::SnapshotSetId,
        Key::DeleteSnapshot => Text::SnapshotId,
        Key::BreakSet => Text::SnapshotSetId,
        Key::BreakWritable => Text::SnapshotId,
        Key::ExposeLocal => Text::Local,
        Key::ExposeRemote => Text::Remote,
        Key::Restore => Text::WrFile,
        Key::RestoreSimulate => Text::WrFile,
    }
}
/// Whether an argument has the form of an option: it starts with `-` and is
/// not a flag.
#[verifier::opaque]
pub open spec fn is_option(arg: Seq<char>) -> bool {
    flag_of(arg) is None && arg.len() > 0 && arg[0] == '-'
}

/// Whether an argument names a volume: it is neither a flag nor an option.
#[verifier::opaque]
pub open spec fn is_volume(arg: Seq<char>) -> bool {
    flag_of(arg) is None && !(arg.len() > 0 && arg[0] == '-')
}

/// The known option and its non-empty value that an argument gives, if any.
#[verifier::opaque]
pub open spec fn keyed(arg: Seq<char>) -> Option<(Key, Seq<char>)> {
    if is_option(arg) {
        match split_kv_spec(arg).1 {
            Some(v) => match key_of(split_kv_spec(arg).0) {
                Some(k) => Some((k, v)),
                None => None,
            },
            None => None,
        }
    } else {
        None
    }
}

/// Why an argument is refused, if it is: an option without a value, or with
/// a key the tool does not know.
#[verifier::opaque]
pub open spec fn arg_error(arg: Seq<char>) -> Option<ArgsErrorView> {
    if is_option(arg) {
        let (k, v) = split_kv_spec(arg);
        match v {
            None => Some(ArgsErrorView::EmptyValue(k)),
            Some(_) => match key_of(k) {
                Some(_) => None,
                None => Some(ArgsErrorView::UnsupportedKey(k)),
            },
        }
    } else {
        None
    }
}

/// Whether an argument turns a switch on. A volume turns on `create`.
#[verifier::opaque]
pub open spec fn turns_on(arg: Seq<char>, s: Switch) -> bool {
    match flag_of(arg) {
        Some(f) => flag_turns_on(f, s),
        None => match keyed(arg) {
            Some((k, _)) => key_turns_on(k, s),
            None => is_volume(arg) && s == Switch::Create,
        },
    }
}

/// The value an argument gives to a text option, if any.
#[verifier::opaque]
pub open spec fn sets_text(arg: Seq<char>, t: Text) -> Option<Seq<char>> {
    match keyed(arg) {
        Some((k, v)) => if key_text(k) == t {
            Some(v)
        } else {
            None
        },
        None => None,
    }
}

/// A text value after an argument that may set it anew.
pub open spec fn updated(prev: Option<Seq<char>>, new: Option<Seq<char>>) -> Option<Seq<char>> {
    match new {
        Some(v) => Some(v),
        None => prev,
    }
}

/// Whether a switch is on after `args`: some argument turned it on.
pub open spec fn switch_after(args: Seq<Seq<char>>, s: Switch) -> bool
    decreases args.len(),
{
    if args.len() == 0 {
        false
    } else {
        switch_after(args.drop_last(), s) || turns_on(args.last(), s)
    }
}

/// A text option after `args`: the value of the last argument that set it.
pub open spec fn text_after(args: Seq<Seq<char>>, t: Text) -> Option<Seq<char>>
    decreases args.len(),
{
    if args.len() == 0 {
        None
    } else {
        updated(text_after(args.drop_last(), t), sets_text(args.last(), t))
    }
}

/// The volumes named in `args`, in order.
pub open spec fn volumes_after(args: Seq<Seq<char>>) -> Seq<Seq<char>>
    decreases args.len(),
{
    if args.len() == 0 {
        Seq::empty()
    } else if is_volume(args.last()) {
        volumes_after(args.drop_last()).push(args.last())
    } else {
        volumes_after(args.drop_last())
    }
}

/// The error of the first refused argument of `args`, if any.
pub open spec fn first_error(args: Seq<Seq<char>>) -> Option<ArgsErrorView>
    decreases args.len(),
{
    if args.len() == 0 {
        None
    } else {
        match first_error(args.drop_last()) {
            Some(e) => Some(e),
            None => arg_error(args.last()),
        }
    }
}

/// `a` holds the options that `args` give.
pub open spec fn describes(a: Args, args: Seq<Seq<char>>) -> bool {
    &&& a.create == switch_after(args, Switch::Create)
    &&& a.persistent == switch_after(args, Switch::Persistent)
    &&& a.no_wirters == switch_after(args, Switch::NoWirters)
    &&& a.add_differential == switch_after(args, Switch::AddDifferential)
    &&& a.add_plex == switch_after(args, Switch::AddPlex)
    &&& a.create_shadow_copy_for_shared_folders == switch_after(args, Switch::CreateShadowCopyForSharedFolders)
    &&& a.import == switch_after(args, Switch::Import)
    &&& a.query == switch_after(args, Switch::Query)
    &&& a.delete == switch_after(args, Switch::Delete)
    &&& a.breaks == switch_after(args, Switch::Breaks)
    &&& a.writable == switch_after(args, Switch::Writable)
    &&& a.exposing == switch_after(args, Switch::Exposing)
    &&& a.writers == switch_after(args, Switch::Writers)
    &&& a.writer_status == switch_after(args, Switch::WriterStatus)
    &&& a.writer_meta == switch_after(args, Switch::WriterMeta)
    &&& a.writer_meta2 == switch_after(args, Switch::WriterMeta2)
    &&& a.wrestore == switch_after(args, Switch::Wrestore)
    &&& a.wr_simulate == switch_after(args, Switch::WrSimulate)
    &&& a.all == switch_after(args, Switch::All)
    &&& a.wait == switch_after(args, Switch::Wait)
    &&& a.tracing == switch_after(args, Switch::Tracing)
    &&& opt_view(a.writer_included) == text_after(args, Text::WriterIncluded)
    &&& opt_view(a.writer_excluded) == text_after(args, Text::WriterExcluded)
    &&& opt_view(a.transportable) == text_after(args, Text::Transportable)
    &&& opt_view(a.non_transportable) == text_after(args, Text::NonTransportable)
    &&& opt_view(a.script) == text_after(args, Text::Script)
    &&& opt_view(a.import_file) == text_after(args, Text::ImportFile)
    &&& opt_view(a.exec_cmd) == text_after(args, Text::ExecCmd)
    &&& opt_view(a.local) == text_after(args, Text::Local)
    &&& opt_view(a.remote) == text_after(args, Text::Remote)
    &&& opt_view(a.wr_file) == text_after(args, Text::WrFile)
    &&& opt_view(a.snapshot_set_id) == text_after(args, Text::SnapshotSetId)
    &&& opt_view(a.snapshot_id) == text_after(args, Text::SnapshotId)
    &&& views(a.volumes@) == volumes_after(args)
}
/// `new` is `old` after one accepted argument.
pub open spec fn stepped(old: Args, new: Args, arg: Seq<char>) -> bool {
    &&& new.create == (old.create || turns_on(arg, Switch::Create))
    &&& new.persistent == (old.persistent || turns_on(arg, Switch::Persistent))
    &&& new.no_wirters == (old.no_wirters || turns_on(arg, Switch::NoWirters))
    &&& new.add_differential == (old.add_differential || turns_on(arg, Switch::AddDifferential))
    &&& new.add_plex == (old.add_plex || turns_on(arg, Switch::AddPlex))
    &&& new.create_shadow_copy_for_shared_folders == (old.create_shadow_copy_for_shared_folders || turns_on(arg, Switch::CreateShadowCopyForSharedFolders))
    &&& new.import == (old.import || turns_on(arg, Switch::Import))
    &&& new.query == (old.query || turns_on(arg, Switch::Query))
    &&& new.delete == (old.delete || turns_on(arg, Switch::Delete))
    &&& new.breaks == (old.breaks || turns_on(arg, Switch::Breaks))
    &&& new.writable == (old.writable || turns_on(arg, Switch::Writable))
    &&& new.exposing == (old.exposing || turns_on(arg, Switch::Exposing))
    &&& new.writers == (old.writers || turns_on(arg, Switch::Writers))
    &&& new.writer_status == (old.writer_status || turns_on(arg, Switch::WriterStatus))
    &&& new.writer_meta == (old.writer_meta || turns_on(arg, Switch::WriterMeta))
    &&& new.writer_meta2 == (old.writer_meta2 || turns_on(arg, Switch::WriterMeta2))
    &&& new.wrestore == (old.wrestore || turns_on(arg, Switch::Wrestore))
    &&& new.wr_simulate == (old.wr_simulate || turns_on(arg, Switch::WrSimulate))
    &&& new.all == (old.all || turns_on(arg, Switch::All))
    &&& new.wait == (old.wait || turns_on(arg, Switch::Wait))
    &&& new.tracing == (old.tracing || turns_on(arg, Switch::Tracing))
    &&& opt_view(new.writer_included) == updated(opt_view(old.writer_included), sets_text(arg, Text::WriterIncluded))
    &&& opt_view(new.writer_excluded) == updated(opt_view(old.writer_excluded), sets_text(arg, Text::WriterExcluded))
    &&& opt_view(new.transportable) == updated(opt_view(old.transportable), sets_text(arg, Text::Transportable))
    &&& opt_view(new.non_transportable) == updated(opt_view(old.non_transportable), sets_text(arg, Text::NonTransportable))
    &&& opt_view(new.script) == updated(opt_view(old.script), sets_text(arg, Text::Script))
    &&& opt_view(new.import_file) == updated(opt_view(old.import_file), sets_text(arg, Text::ImportFile))
    &&& opt_view(new.exec_cmd) == updated(opt_view(old.exec_cmd), sets_text(arg, Text::ExecCmd))
    &&& opt_view(new.local) == updated(opt_view(old.local), sets_text(arg, Text::Local))
    &&& opt_view(new.remote) == updated(opt_view(old.remote), sets_text(arg, Text::Remote))
    &&& opt_view(new.wr_file) == updated(opt_view(old.wr_file), sets_text(arg, Text::WrFile))
    &&& opt_view(new.snapshot_set_id) == updated(opt_view(old.snapshot_set_id), sets_text(arg, Text::SnapshotSetId))
    &&& opt_view(new.snapshot_id) == updated(opt_view(old.snapshot_id), sets_text(arg, Text::SnapshotId))
    &&& views(new.volumes@) == if is_volume(arg) {
        views(old.volumes@).push(arg)
    } else {
        views(old.volumes@)
    }
}

impl Default for Args {
    fn default() -> (r: Args)
        ensures
            describes(r, Seq::empty()),
    {
        let r = Args {
            create: false,
            persistent: false,
            no_wirters: false,
            add_differential: false,
            add_plex: false,
            create_shadow_copy_for_shared_folders: false,
            writer_included: None,
            writer_excluded: None,
            transportable: None,
            non_transportable: None,
            script: None,
            volumes: Vec::new(),
            import: false,
            import_file: None,
            exec_cmd: None,
            query: false,
            delete: false,
            breaks: false,
            writable: false,
            exposing: false,
            local: None,
            remote: None,
            writers: false,
            writer_status: false,
            writer_meta: false,
            writer_meta2: false,
            wrestore: false,
            wr_file: None,
            wr_simulate: false,
            all: false,
            snapshot_set_id: None,
            snapshot_id: None,
            wait: false,
            tracing: false,
        };
        assert(views(r.volumes@) =~= Seq::<Seq<char>>::empty());
        r
    }
}
/// Whether two strings hold the same characters.
fn str_eq(a: &str, b: &str) -> (r: bool)
    ensures
        r == (a@ == b@),
{
    let n = a.unicode_len();
    if n != b.unicode_len() {
        return false;
    }
    let mut i: usize = 0;
    while i < n
        invariant
            n == a@.len(),
            n == b@.len(),
            i <= n,
            forall|j: int| 0 <= j < i ==> a@[j] == b@[j],
        decreases n - i,
    {
        if a.get_char(i) != b.get_char(i) {
            return false;
        }
        i = i + 1;
    }
    assert(a@ =~= b@);
    true
}

proof fn lemma_key_len(s: Seq<char>, n: int)
    requires
        0 <= n <= s.len(),
        forall|i: int| 0 <= i < n ==> s[i] != '=',
        n == s.len() || s[n] == '=',
    ensures
        key_len(s) == n,
    decreases n,
{
    if n > 0 {
        lemma_key_len(s.subrange(1, s.len() as int), n - 1);
    }
}

/// Splits `key=value` at the first `=`. The value is `None` when there is no
/// `=` or nothing follows it.
pub fn split_kv(kv: &str) -> (r: (String, Option<String>))
    ensures
        r.0@ == split_kv_spec(kv@).0,
        opt_view(r.1) == split_kv_spec(kv@).1,
{
    let len = kv.unicode_len();
    let mut n: usize = 0;
    while n < len && kv.get_char(n) != '='
        invariant
            len == kv@.len(),
            n <= len,
            forall|i: int| 0 <= i < n ==> kv@[i] != '=',
        decreases len - n,
    {
        n = n + 1;
    }
    proof {
        lemma_key_len(kv@, n as int);
    }
    if n == len {
        return (kv.to_owned(), None);
    }
    let key = kv.substring_char(0, n).to_owned();
    if n + 1 < len {
        let value = kv.substring_char(n + 1, len).to_owned();
        assert(kv@.subrange(n + 1, len as int) =~= kv@.skip(n + 1));
        (key, Some(value))
    } else {
        (key, None)
    }
}

/// The error for an option given without its value.
pub fn panic_on_key_empty(key: &str) -> (r: ArgsError)
    ensures
        r@ == ArgsErrorView::EmptyValue(key@),
{
    ArgsError::EmptyValue(key.to_owned())
}

fn flag_of_arg(a: &str) -> (r: Option<Flag>)
    ensures
        r == flag_of(a@),
{
    if str_eq(a, "-p") {
        Some(Flag::Persistent)
    } else if str_eq(a, "-nw") {
        Some(Flag::NoWriters)
    } else if str_eq(a, "-ad") {
        Some(Flag::AddDifferential)
    } else if str_eq(a, "-ap") {
        Some(Flag::AddPlex)
    } else if str_eq(a, "-scsf") {
        Some(Flag::SharedFolders)
    } else if str_eq(a, "-q") {
        Some(Flag::QueryAll)
    } else if str_eq(a, "-da") {
        Some(Flag::DeleteAll)
    } else if str_eq(a, "-ws") {
        Some(Flag::WriterStatus)
    } else if str_eq(a, "-wm") {
        Some(Flag::WriterMeta)
    } else if str_eq(a, "-wm2") {
        Some(Flag::WriterMetaFull)
    } else if str_eq(a, "-wait") {
        Some(Flag::Wait)
    } else if str_eq(a, "-tracing") {
        Some(Flag::Tracing)
    } else {
        None
    }
}

fn key_of_arg(k: &str) -> (r: Option<Key>)
    ensures
        r == key_of(k@),
{
    if str_eq(k, "-wi") {
        Some(Key::WriterIncluded)
    } else if str_eq(k, "-wx") {
        Some(Key::WriterExcluded)
    } else if str_eq(k, "-script") {
        Some(Key::Script)
    } else if str_eq(k, "-exec") {
        Some(Key::Exec)
    } else if str_eq(k, "-i") {
        Some(Key::Import)
    } else if str_eq(k, "-qx") {
        Some(Key::QuerySet)
    } else if str_eq(k, "-s") {
        Some(Key::QuerySnapshot)
    } else if str_eq(k, "-dx") {
        Some(Key::DeleteSet)
    } else if str_eq(k, "-ds") {
        Some(Key::DeleteSnapshot)
    } else if str_eq(k, "-b") {
        Some(Key::BreakSet)
    } else if str_eq(k, "-bw") {
        Some(Key::BreakWritable)
    } else if str_eq(k, "-el") {
        Some(Key::ExposeLocal)
    } else if str_eq(k, "-er") {
        Some(Key::ExposeRemote)
    } else if str_eq(k, "-r") {
        Some(Key::Restore)
    } else if str_eq(k, "-rs") {
        Some(Key::RestoreSimulate)
    } else {
        None
    }
}

fn set_flag(command: &mut Args, f: Flag)
    ensures
        final(command).create == (old(command).create || flag_turns_on(f, Switch::Create)),
        final(command).persistent == (old(command).persistent || flag_turns_on(f, Switch::Persistent)),
        final(command).no_wirters == (old(command).no_wirters || flag_turns_on(f, Switch::NoWirters)),
        final(command).add_differential == (old(command).add_differential || flag_turns_on(f, Switch::AddDifferential)),
        final(command).add_plex == (old(command).add_plex || flag_turns_on(f, Switch::AddPlex)),
        final(command).create_shadow_copy_for_shared_folders == (old(command).create_shadow_copy_for_shared_folders || flag_turns_on(f, Switch::CreateShadowCopyForSharedFolders)),
        final(command).import == (old(command).import || flag_turns_on(f, Switch::Import)),
        final(command).query == (old(command).query || flag_turns_on(f, Switch::Query)),
        final(command).delete == (old(command).delete || flag_turns_on(f, Switch::Delete)),
        final(command).breaks == (old(command).breaks || flag_turns_on(f, Switch::Breaks)),
        final(command).writable == (old(command).writable || flag_turns_on(f, Switch::Writable)),
        final(command).exposing == (old(command).exposing || flag_turns_on(f, Switch::Exposing)),
        final(command).writers == (old(command).writers || flag_turns_on(f, Switch::Writers)),
        final(command).writer_status == (old(command).writer_status || flag_turns_on(f, Switch::WriterStatus)),
        final(command).writer_meta == (old(command).writer_meta || flag_turns_on(f, Switch::WriterMeta)),
        final(command).writer_meta2 == (old(command).writer_meta2 || flag_turns_on(f, Switch::WriterMeta2)),
        final(command).wrestore == (old(command).wrestore || flag_turns_on(f, Switch::Wrestore)),
        final(command).wr_simulate == (old(command).wr_simulate || flag_turns_on(f, Switch::WrSimulate)),
        final(command).all == (old(command).all || flag_turns_on(f, Switch::All)),
        final(command).wait == (old(command).wait || flag_turns_on(f, Switch::Wait)),
        final(command).tracing == (old(command).tracing || flag_turns_on(f, Switch::Tracing)),
        final(command).writer_included == old(command).writer_included,
        final(command).writer_excluded == old(command).writer_excluded,
        final(command).transportable == old(command).transportable,
        final(command).non_transportable == old(command).non_transportable,
        final(command).script == old(command).script,
        final(command).import_file == old(command).import_file,
        final(command).exec_cmd == old(command).exec_cmd,
        final(command).local == old(command).local,
        final(command).remote == old(command).remote,
        final(command).wr_file == old(command).wr_file,
        final(command).snapshot_set_id == old(command).snapshot_set_id,
        final(command).snapshot_id == old(command).snapshot_id,
        final(command).volumes == old(command).volumes,
{
    match f {
        Flag::Persistent => {
            command.create = true;
            command.persistent = true;
        },
        Flag::NoWriters => {
            command.create = true;
            command.no_wirters = true;
        },
        Flag::AddDifferential => {
            command.create = true;
            command.add_differential = true;
        },
        Flag::AddPlex => {
            command.create = true;
            command.add_plex = true;
        },
        Flag::SharedFolders => {
            command.create = true;
            command.create_shadow_copy_for_shared_folders = true;
        },
        Flag::QueryAll => {
            command.query = true;
            command.all = true;
        },
        Flag::DeleteAll => {
            command.delete = true;
            command.all = true;
        },
        Flag::WriterStatus => {
            command.writers = true;
            command.writer_status = true;
        },
        Flag::WriterMeta => {
            command.writers = true;
            command.writer_meta = true;
        },
        Flag::WriterMetaFull => {
            command.writers = true;
            command.writer_meta2 = true;
        },
        Flag::Wait => {
            command.wait = true;
        },
        Flag::Tracing => {
            command.tracing = true;
        },
    }
}
fn set_text(command: &mut Args, t: Text, v: String)
    ensures
        final(command).create == old(command).create,
        final(command).persistent == old(command).persistent,
        final(command).no_wirters == old(command).no_wirters,
        final(command).add_differential == old(command).add_differential,
        final(command).add_plex == old(command).add_plex,
        final(command).create_shadow_copy_for_shared_folders == old(command).create_shadow_copy_for_shared_folders,
        final(command).import == old(command).import,
        final(command).query == old(command).query,
        final(command).delete == old(command).delete,
        final(command).breaks == old(command).breaks,
        final(command).writable == old(command).writable,
        final(command).exposing == old(command).exposing,
        final(command).writers == old(command).writers,
        final(command).writer_status == old(command).writer_status,
        final(command).writer_meta == old(command).writer_meta,
        final(command).writer_meta2 == old(command).writer_meta2,
        final(command).wrestore == old(command).wrestore,
        final(command).wr_simulate == old(command).wr_simulate,
        final(command).all == old(command).all,
        final(command).wait == old(command).wait,
        final(command).tracing == old(command).tracing,
        final(command).writer_included == (if t == Text::WriterIncluded { Some(v) } else { old(command).writer_included }),
        final(command).writer_excluded == (if t == Text::WriterExcluded { Some(v) } else { old(command).writer_excluded }),
        final(command).transportable == (if t == Text::Transportable { Some(v) } else { old(command).transportable }),
        final(command).non_transportable == (if t == Text::NonTransportable { Some(v) } else { old(command).non_transportable }),
        final(command).script == (if t == Text::Script { Some(v) } else { old(command).script }),
        final(command).import_file == (if t == Text::ImportFile { Some(v) } else { old(command).import_file }),
        final(command).exec_cmd == (if t == Text::ExecCmd { Some(v) } else { old(command).exec_cmd }),
        final(command).local == (if t == Text::Local { Some(v) } else { old(command).local }),
        final(command).remote == (if t == Text::Remote { Some(v) } else { old(command).remote }),
        final(command).wr_file == (if t == Text::WrFile { Some(v) } else { old(command).wr_file }),
        final(command).snapshot_set_id == (if t == Text::SnapshotSetId { Some(v) } else { old(command).snapshot_set_id }),
        final(command).snapshot_id == (if t == Text::SnapshotId { Some(v) } else { old(command).snapshot_id }),
        final(command).volumes == old(command).volumes,
{
    match t {
        Text::WriterIncluded => {
            command.writer_included = Some(v);
        },
        Text::WriterExcluded => {
            command.writer_excluded = Some(v);
        },
        Text::Transportable => {
            command.transportable = Some(v);
        },
        Text::NonTransportable => {
            command.non_transportable = Some(v);
        },
        Text::Script => {
            command.script = Some(v);
        },
        Text::ImportFile => {
            command.import_file = Some(v);
        },
        Text::ExecCmd => {
            command.exec_cmd = Some(v);
        },
        Text::Local => {
            command.local = Some(v);
        },
        Text::Remote => {
            command.remote = Some(v);
        },
        Text::WrFile => {
            command.wr_file = Some(v);
        },
        Text::SnapshotSetId => {
            command.snapshot_set_id = Some(v);
        },
        Text::SnapshotId => {
            command.snapshot_id = Some(v);
        },
    }
}

#[verifier::rlimit(100)]
fn set_key_switches(command: &mut Args, k: Key)
    ensures
        final(command).create == (old(command).create || key_turns_on(k, Switch::Create)),
        final(command).persistent == (old(command).persistent || key_turns_on(k, Switch::Persistent)),
        final(command).no_wirters == (old(command).no_wirters || key_turns_on(k, Switch::NoWirters)),
        final(command).add_differential == (old(command).add_differential || key_turns_on(k, Switch::AddDifferential)),
        final(command).add_plex == (old(command).add_plex || key_turns_on(k, Switch::AddPlex)),
        final(command).create_shadow_copy_for_shared_folders == (old(command).create_shadow_copy_for_shared_folders || key_turns_on(k, Switch::CreateShadowCopyForSharedFolders)),
        final(command).import == (old(command).import || key_turns_on(k, Switch::Import)),
        final(command).query == (old(command).query || key_turns_on(k, Switch::Query)),
        final(command).delete == (old(command).delete || key_turns_on(k, Switch::Delete)),
        final(command).breaks == (old(command).breaks || key_turns_on(k, Switch::Breaks)),
        final(command).writable == (old(command).writable || key_turns_on(k, Switch::Writable)),
        final(command).exposing == (old(command).exposing || key_turns_on(k, Switch::Exposing)),
        final(command).writers == (old(command).writers || key_turns_on(k, Switch::Writers)),
        final(command).writer_status == (old(command).writer_status || key_turns_on(k, Switch::WriterStatus)),
        final(command).writer_meta == (old(command).writer_meta || key_turns_on(k, Switch::WriterMeta)),
        final(command).writer_meta2 == (old(command).writer_meta2 || key_turns_on(k, Switch::WriterMeta2)),
        final(command).wrestore == (old(command).wrestore || key_turns_on(k, Switch::Wrestore)),
        final(command).wr_simulate == (old(command).wr_simulate || key_turns_on(k, Switch::WrSimulate)),
        final(command).all == (old(command).all || key_turns_on(k, Switch::All)),
        final(command).wait == (old(command).wait || key_turns_on(k, Switch::Wait)),
        final(command).tracing == (old(command).tracing || key_turns_on(k, Switch::Tracing)),
        final(command).writer_included == old(command).writer_included,
        final(command).writer_excluded == old(command).writer_excluded,
        final(command).transportable == old(command).transportable,
        final(command).non_transportable == old(command).non_transportable,
        final(command).script == old(command).script,
        final(command).import_file == old(command).import_file,
        final(command).exec_cmd == old(command).exec_cmd,
        final(command).local == old(command).local,
        final(command).remote == old(command).remote,
        final(command).wr_file == old(command).wr_file,
        final(command).snapshot_set_id == old(command).snapshot_set_id,
        final(command).snapshot_id == old(command).snapshot_id,
        final(command).volumes == old(command).volumes,
{
    match k {
        Key::WriterIncluded => {
            command.create = true;
        },
        Key::WriterExcluded => {
            command.create = true;
        },
        Key::Script => {
            command.create = true;
        },
        Key::Exec => {},
        Key::Import => {
            command.import = true;
        },
        Key::QuerySet => {
            command.query = true;
        },
        Key::QuerySnapshot => {
            command.query = true;
        },
        Key::DeleteSet => {
            command.delete = true;
        },
        Key::DeleteSnapshot => {
            command.delete = true;
        },
        Key::BreakSet => {
            command.breaks = true;
        },
        Key::BreakWritable => {
            command.breaks = true;
        },
        Key::ExposeLocal => {
            command.exposing = true;
        },
        Key::ExposeRemote => {
            command.exposing = true;
        },
        Key::Restore => {
            command.wrestore = true;
        },
        Key::RestoreSimulate => {
            command.wrestore = true;
            command.wr_simulate = true;
        },
    }
}

fn key_text_of(k: Key) -> (r: Text)
    ensures
        r == key_text(k),
{
    match k {
        Key::WriterIncluded => Text::WriterIncluded,
        Key::WriterExcluded => Text::WriterExcluded,
        Key::Script => Text::Script,
        Key::Exec => Text::ExecCmd,
        Key::Import => Text::ImportFile,
        Key::QuerySet => Text::SnapshotSetId,
        Key::QuerySnapshot => Text::SnapshotId,
        Key::DeleteSet => Text::SnapshotSetId,
        Key::DeleteSnapshot => Text::SnapshotId,
        Key::BreakSet => Text::SnapshotSetId,
        Key::BreakWritable => Text::SnapshotId,
        Key::ExposeLocal => Text::Local,
        Key::ExposeRemote => Text::Remote,
        Key::Restore => Text::WrFile,
        Key::RestoreSimulate => Text::WrFile,
    }
}

fn set_key(command: &mut Args, k: Key, v: String)
    ensures
        final(command).create == (old(command).create || key_turns_on(k, Switch::Create)),
        final(command).persistent == (old(command).persistent || key_turns_on(k, Switch::Persistent)),
        final(command).no_wirters == (old(command).no_wirters || key_turns_on(k, Switch::NoWirters)),
        final(command).add_differential == (old(command).add_differential || key_turns_on(k, Switch::AddDifferential)),
        final(command).add_plex == (old(command).add_plex || key_turns_on(k, Switch::AddPlex)),
        final(command).create_shadow_copy_for_shared_folders == (old(command).create_shadow_copy_for_shared_folders || key_turns_on(k, Switch::CreateShadowCopyForSharedFolders)),
        final(command).import == (old(command).import || key_turns_on(k, Switch::Import)),
        final(command).query == (old(command).query || key_turns_on(k, Switch::Query)),
        final(command).delete == (old(command).delete || key_turns_on(k, Switch::Delete)),
        final(command).breaks == (old(command).breaks || key_turns_on(k, Switch::Breaks)),
        final(command).writable == (old(command).writable || key_turns_on(k, Switch::Writable)),
        final(command).exposing == (old(command).exposing || key_turns_on(k, Switch::Exposing)),
        final(command).writers == (old(command).writers || key_turns_on(k, Switch::Writers)),
        final(command).writer_status == (old(command).writer_status || key_turns_on(k, Switch::WriterStatus)),
        final(command).writer_meta == (old(command).writer_meta || key_turns_on(k, Switch::WriterMeta)),
        final(command).writer_meta2 == (old(command).writer_meta2 || key_turns_on(k, Switch::WriterMeta2)),
        final(command).wrestore == (old(command).wrestore || key_turns_on(k, Switch::Wrestore)),
        final(command).wr_simulate == (old(command).wr_simulate || key_turns_on(k, Switch::WrSimulate)),
        final(command).all == (old(command).all || key_turns_on(k, Switch::All)),
        final(command).wait == (old(command).wait || key_turns_on(k, Switch::Wait)),
        final(command).tracing == (old(command).tracing || key_turns_on(k, Switch::Tracing)),
        final(command).writer_included == (if key_text(k) == Text::WriterIncluded { Some(v) } else { old(command).writer_included }),
        final(command).writer_excluded == (if key_text(k) == Text::WriterExcluded { Some(v) } else { old(command).writer_excluded }),
        final(command).transportable == (if key_text(k) == Text::Transportable { Some(v) } else { old(command).transportable }),
        final(command).non_transportable == (if key_text(k) == Text::NonTransportable { Some(v) } else { old(command).non_transportable }),
        final(command).script == (if key_text(k) == Text::Script { Some(v) } else { old(command).script }),
        final(command).import_file == (if key_text(k) == Text::ImportFile { Some(v) } else { old(command).import_file }),
        final(command).exec_cmd == (if key_text(k) == Text::ExecCmd { Some(v) } else { old(command).exec_cmd }),
        final(command).local == (if key_text(k) == Text::Local { Some(v) } else { old(command).local }),
        final(command).remote == (if key_text(k) == Text::Remote { Some(v) } else { old(command).remote }),
        final(command).wr_file == (if key_text(k) == Text::WrFile { Some(v) } else { old(command).wr_file }),
        final(command).snapshot_set_id == (if key_text(k) == Text::SnapshotSetId { Some(v) } else { old(command).snapshot_set_id }),
        final(command).snapshot_id == (if key_text(k) == Text::SnapshotId { Some(v) } else { old(command).snapshot_id }),
        final(command).volumes == old(command).volumes,
{
    set_key_switches(command, k);
    set_text(command, key_text_of(k), v);
}

proof fn lemma_flag_effect(arg: Seq<char>, f: Flag)
    requires
        flag_of(arg) == Some(f),
    ensures
        arg_error(arg) is None,
        forall|s: Switch| turns_on(arg, s) == flag_turns_on(f, s),
        forall|t: Text| sets_text(arg, t) is None,
        !is_volume(arg),
{
    reveal(turns_on);
    reveal(sets_text);
    reveal(is_option);
    reveal(is_volume);
    reveal(keyed);
    reveal(arg_error);
}

proof fn lemma_option_effect(arg: Seq<char>)
    requires
        flag_of(arg) is None,
        arg.len() > 0 && arg[0] == '-',
    ensures
        split_kv_spec(arg).1 is None ==> arg_error(arg) == Some(
            ArgsErrorView::EmptyValue(split_kv_spec(arg).0),
        ),
        split_kv_spec(arg).1 is Some && key_of(split_kv_spec(arg).0) is None ==> arg_error(arg)
            == Some(ArgsErrorView::UnsupportedKey(split_kv_spec(arg).0)),
        split_kv_spec(arg).1 is Some && key_of(split_kv_spec(arg).0) is Some ==> arg_error(arg)
            is None && keyed(arg) == Some(
            (key_of(split_kv_spec(arg).0)->Some_0, split_kv_spec(arg).1->Some_0),
        ),
{
    reveal(is_option);
    reveal(keyed);
    reveal(arg_error);
}

proof fn lemma_key_effect(arg: Seq<char>, k: Key, v: Seq<char>)
    requires
        keyed(arg) == Some((k, v)),
    ensures
        forall|s: Switch| turns_on(arg, s) == key_turns_on(k, s),
        forall|t: Text| sets_text(arg, t) == (if key_text(k) == t { Some(v) } else { None }),
        !is_volume(arg),
{
    reveal(turns_on);
    reveal(sets_text);
    reveal(is_option);
    reveal(is_volume);
    reveal(keyed);
    reveal(arg_error);
}

proof fn lemma_volume_effect(arg: Seq<char>)
    requires
        flag_of(arg) is None,
        !(arg.len() > 0 && arg[0] == '-'),
    ensures
        is_volume(arg),
        arg_error(arg) is None,
        forall|s: Switch| turns_on(arg, s) == (s == Switch::Create),
        forall|t: Text| sets_text(arg, t) is None,
{
    reveal(turns_on);
    reveal(sets_text);
    reveal(is_option);
    reveal(is_volume);
    reveal(keyed);
    reveal(arg_error);
}

#[verifier::rlimit(100)]
fn apply_flag(command: &mut Args, arg: &String, f: Flag)
    requires
        flag_of(arg@) == Some(f),
    ensures
        arg_error(arg@) is None,
        stepped(*old(command), *final(command), arg@),
{
    proof {
        lemma_flag_effect(arg@, f);
    }
    set_flag(command, f);
}

#[verifier::rlimit(100)]
fn apply_key(command: &mut Args, arg: &String, k: Key, v: String)
    requires
        keyed(arg@) == Some((k, v@)),
    ensures
        stepped(*old(command), *final(command), arg@),
{
    proof {
        lemma_key_effect(arg@, k, v@);
    }
    set_key(command, k, v);
}

#[verifier::rlimit(100)]
fn apply_volume(command: &mut Args, arg: &String)
    requires
        flag_of(arg@) is None,
        !(arg@.len() > 0 && arg@[0] == '-'),
    ensures
        arg_error(arg@) is None,
        stepped(*old(command), *final(command), arg@),
{
    proof {
        lemma_volume_effect(arg@);
    }
    let ghost before = views(command.volumes@);
    command.create = true;
    command.volumes.push(arg.clone());
    assert(views(command.volumes@) =~= before.push(arg@));
}

fn apply_arg(command: &mut Args, arg: &String) -> (r: Result<(), ArgsError>)
    ensures
        match arg_error(arg@) {
            Some(e) => r is Err && r->Err_0@ == e,
            None => r is Ok && stepped(*old(command), *final(command), arg@),
        },
{
    let a = arg.as_str();
    if let Some(f) = flag_of_arg(a) {
        apply_flag(command, arg, f);
        return Ok(());
    }
    if a.unicode_len() > 0 && a.get_char(0) == '-' {
        let (k, v) = split_kv(a);
        proof {
            lemma_option_effect(arg@);
        }
        match v {
            None => Err(panic_on_key_empty(k.as_str())),
            Some(v) => match key_of_arg(k.as_str()) {
                Some(key) => {
                    apply_key(command, arg, key, v);
                    Ok(())
                },
                None => Err(ArgsError::UnsupportedKey(k)),
            },
        }
    } else {
        apply_volume(command, arg);
        Ok(())
    }
}

proof fn lemma_error_persists(args: Seq<Seq<char>>, n: int)
    requires
        0 <= n <= args.len(),
        first_error(args.take(n)) is Some,
    ensures
        first_error(args) == first_error(args.take(n)),
    decreases args.len() - n,
{
    if n < args.len() {
        assert(args.take(n + 1).drop_last() =~= args.take(n));
        lemma_error_persists(args, n + 1);
    } else {
        assert(args.take(n) =~= args);
    }
}

/// Reads a command line (the arguments after the program name), left to
/// right: bare flags switch options on, `-key=value` options set values (the
/// last one given wins), and anything not starting with `-` names a volume to
/// copy. An option whose value is empty or missing, or whose key the tool does
/// not know, is refused: the first such argument decides the error.
pub fn parse_args(args: &[String]) -> (r: Result<Args, ArgsError>)
    ensures
        match first_error(views(args@)) {
            Some(e) => r is Err && r->Err_0@ == e,
            None => r is Ok && describes(r->Ok_0, views(args@)),
        },
{
    let mut command = Args::default();
    let mut i: usize = 0;
    proof {
        assert(views(args@.take(0)) =~= Seq::<Seq<char>>::empty());
    }
    while i < args.len()
        invariant
            i <= args@.len(),
            first_error(views(args@.take(i as int))) is None,
            describes(command, views(args@.take(i as int))),
        decreases args@.len() - i,
    {
        let ghost pre = views(args@.take(i as int + 1));
        proof {
            assert(pre.drop_last() =~= views(args@.take(i as int)));
            assert(pre.last() == args@[i as int]@);
        }
        match apply_arg(&mut command, &args[i]) {
            Ok(()) => {},
            Err(e) => {
                proof {
                    assert(views(args@).take(i as int + 1) =~= pre);
                    lemma_error_persists(views(args@), i as int + 1);
                }
                return Err(e);
            },
        }
        i = i + 1;
    }
    assert(args@.take(args@.len() as int) =~= args@);
    Ok(command)
}

} // verus!
