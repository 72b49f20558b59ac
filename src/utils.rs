//! Decoding of the service's native encodings: attribute bit-masks, snapshot
//! states, timestamps and null-terminated UTF-16 text.
use vstd::prelude::*;

verus! {

// ----- attribute bit-masks -----

pub const ATTR_PERSISTENT: i32 = 0x1;
pub const ATTR_NO_AUTORECOVERY: i32 = 0x2;
pub const ATTR_CLIENT_ACCESSIBLE: i32 = 0x4;
pub const ATTR_NO_AUTO_RELEASE: i32 = 0x8;
pub const ATTR_NO_WRITERS: i32 = 0x10;
pub const ATTR_TRANSPORTABLE: i32 = 0x20;
pub const ATTR_NOT_SURFACED: i32 = 0x40;
pub const ATTR_NOT_TRANSACTED: i32 = 0x80;
pub const ATTR_HARDWARE_ASSISTED: i32 = 0x10000;
pub const ATTR_DIFFERENTIAL: i32 = 0x20000;
pub const ATTR_PLEX: i32 = 0x40000;
pub const ATTR_IMPORTED: i32 = 0x80000;
pub const ATTR_EXPOSED_LOCALLY: i32 = 0x100000;
pub const ATTR_EXPOSED_REMOTELY: i32 = 0x200000;
pub const ATTR_AUTORECOVER: i32 = 0x400000;
pub const ATTR_ROLLBACK_RECOVERY: i32 = 0x800000;
pub const ATTR_DELAYED_POSTSNAPSHOT: i32 = 0x1000000;
pub const ATTR_TXF_RECOVERY: i32 = 0x2000000;
pub const ATTR_FILE_SHARE: i32 = 0x4000000;

/// The name emitted for one flag: present when its bit is set, else nothing.
pub open spec fn flag_entry(attr: i32, bit: i32, name: Seq<char>) -> Seq<Seq<char>> {
    if attr & bit != 0 {
        seq![name]
    } else {
        Seq::empty()
    }
}

/// The name emitted for the auto-release pair: always exactly one of the two.
pub open spec fn release_entry(attr: i32) -> Seq<Seq<char>> {
    if attr & ATTR_NO_AUTO_RELEASE != 0 {
        seq!["No_Auto_Release"@]
    } else {
        seq!["Auto_Release"@]
    }
}

/// The flag names of a mask, in the fixed declared order.
pub open spec fn attr_names(attr: i32) -> Seq<Seq<char>> {
    flag_entry(attr, ATTR_PERSISTENT, "Persistent"@)
        + flag_entry(attr, ATTR_NO_AUTORECOVERY, "No_AutoRecovery"@)
        + flag_entry(attr, ATTR_CLIENT_ACCESSIBLE, "Client_accessible"@)
        + release_entry(attr)
        + flag_entry(attr, ATTR_NO_WRITERS, "No_Writers"@)
        + flag_entry(attr, ATTR_TRANSPORTABLE, "Transportable"@)
        + flag_entry(attr, ATTR_NOT_SURFACED, "Not_Surfaced"@)
        + flag_entry(attr, ATTR_NOT_TRANSACTED, "Not_Transacted"@)
        + flag_entry(attr, ATTR_HARDWARE_ASSISTED, "Hardware"@)
        + flag_entry(attr, ATTR_DIFFERENTIAL, "Differential"@)
        + flag_entry(attr, ATTR_PLEX, "Plex"@)
        + flag_entry(attr, ATTR_IMPORTED, "Imported"@)
        + flag_entry(attr, ATTR_EXPOSED_LOCALLY, "Exposed_Locally"@)
        + flag_entry(attr, ATTR_EXPOSED_REMOTELY, "Exposed_Remotely"@)
        + flag_entry(attr, ATTR_AUTORECOVER, "Autorecover"@)
        + flag_entry(attr, ATTR_ROLLBACK_RECOVERY, "Rollback_Recovery"@)
        + flag_entry(attr, ATTR_DELAYED_POSTSNAPSHOT, "Delayed_Postsnapshot"@)
        + flag_entry(attr, ATTR_TXF_RECOVERY, "Txf_Recovery"@)
        + flag_entry(attr, ATTR_FILE_SHARE, "File_Share"@)
}

/// The views of a vector of strings.
pub open spec fn views(v: Seq<String>) -> Seq<Seq<char>> {
    v.map_values(|s: String| s@)
}

/// The view of an optional string.
pub open spec fn opt_view(o: Option<String>) -> Option<Seq<char>> {
    match o {
        Some(s) => Some(s@),
        None => None,
    }
}

fn push_flag(names: &mut Vec<String>, attr: i32, bit: i32, name: &str)
    ensures
        views(final(names)@) == views(old(names)@) + flag_entry(attr, bit, name@),
{
    if attr & bit != 0 {
        names.push(name.to_owned());
        assert(views(names@) =~= views(old(names)@) + seq![name@]);
    } else {
        assert(views(names@) =~= views(old(names)@) + Seq::<Seq<char>>::empty());
    }
}

/// The names of the flags set in an attribute mask, in declared order. The
/// auto-release pair is always reported: one of its two names, never both.
pub fn volsnap_attrs_to_str(attr: i32) -> (r: Vec<String>)
    ensures
        views(r@) == attr_names(attr),
{
    let mut attrs: Vec<String> = Vec::new();
    push_flag(&mut attrs, attr, ATTR_PERSISTENT, "Persistent");
    assert(views(attrs@) =~= flag_entry(attr, ATTR_PERSISTENT, "Persistent"@));
    push_flag(&mut attrs, attr, ATTR_NO_AUTORECOVERY, "No_AutoRecovery");
    push_flag(&mut attrs, attr, ATTR_CLIENT_ACCESSIBLE, "Client_accessible");
    let ghost before = views(attrs@);
    if attr & ATTR_NO_AUTO_RELEASE != 0 {
        attrs.push("No_Auto_Release".to_owned());
    } else {
        attrs.push("Auto_Release".to_owned());
    }
    assert(views(attrs@) =~= before + release_entry(attr));
    push_flag(&mut attrs, attr, ATTR_NO_WRITERS, "No_Writers");
    push_flag(&mut attrs, attr, ATTR_TRANSPORTABLE, "Transportable");
    push_flag(&mut attrs, attr, ATTR_NOT_SURFACED, "Not_Surfaced");
    push_flag(&mut attrs, attr, ATTR_NOT_TRANSACTED, "Not_Transacted");
    push_flag(&mut attrs, attr, ATTR_HARDWARE_ASSISTED, "Hardware");
    push_flag(&mut attrs, attr, ATTR_DIFFERENTIAL, "Differential");
    push_flag(&mut attrs, attr, ATTR_PLEX, "Plex");
    push_flag(&mut attrs, attr, ATTR_IMPORTED, "Imported");
    push_flag(&mut attrs, attr, ATTR_EXPOSED_LOCALLY, "Exposed_Locally");
    push_flag(&mut attrs, attr, ATTR_EXPOSED_REMOTELY, "Exposed_Remotely");
    push_flag(&mut attrs, attr, ATTR_AUTORECOVER, "Autorecover");
    push_flag(&mut attrs, attr, ATTR_ROLLBACK_RECOVERY, "Rollback_Recovery");
    push_flag(&mut attrs, attr, ATTR_DELAYED_POSTSNAPSHOT, "Delayed_Postsnapshot");
    push_flag(&mut attrs, attr, ATTR_TXF_RECOVERY, "Txf_Recovery");
    push_flag(&mut attrs, attr, ATTR_FILE_SHARE, "File_Share");
    attrs
}

proof fn lemma_contains_concat(a: Seq<Seq<char>>, b: Seq<Seq<char>>, x: Seq<char>)
    ensures
        (a + b).contains(x) <==> a.contains(x) || b.contains(x),
{
    if (a + b).contains(x) {
        let i = choose|i: int| 0 <= i < (a + b).len() && (a + b)[i] == x;
        if i >= a.len() {
            assert(b[i - a.len()] == x);
        }
    }
    if a.contains(x) {
        let i = choose|i: int| 0 <= i < a.len() && a[i] == x;
        assert((a + b)[i] == x);
    }
    if b.contains(x) {
        let i = choose|i: int| 0 <= i < b.len() && b[i] == x;
        assert((a + b)[i + a.len()] == x);
    }
}

proof fn lemma_entry_contains(attr: i32, bit: i32, name: Seq<char>, x: Seq<char>)
    ensures
        flag_entry(attr, bit, name).contains(x) <==> (attr & bit != 0 && x == name),
{
    if attr & bit != 0 {
        assert(flag_entry(attr, bit, name)[0] == name);
    }
}

proof fn lemma_release_contains(attr: i32, x: Seq<char>)
    ensures
        release_entry(attr).contains(x) <==> ((x == "No_Auto_Release"@ && attr & ATTR_NO_AUTO_RELEASE
            != 0) || (x == "Auto_Release"@ && attr & ATTR_NO_AUTO_RELEASE == 0)),
{
    assert(release_entry(attr)[0] == (if attr & ATTR_NO_AUTO_RELEASE != 0 {
        "No_Auto_Release"@
    } else {
        "Auto_Release"@
    }));
}

/// The flag names of a mask: exactly one of "Auto_Release" and
/// "No_Auto_Release", chosen by its bit, and each other flag's name exactly
/// when its bit is set.
pub proof fn lemma_attr_names_complete(attr: i32)
    ensures
        attr_names(attr).contains("Auto_Release"@) <==> attr & ATTR_NO_AUTO_RELEASE == 0,
        attr_names(attr).contains("No_Auto_Release"@) <==> attr & ATTR_NO_AUTO_RELEASE != 0,
        attr_names(attr).contains("Persistent"@) <==> attr & ATTR_PERSISTENT != 0,
        attr_names(attr).contains("No_AutoRecovery"@) <==> attr & ATTR_NO_AUTORECOVERY != 0,
        attr_names(attr).contains("Client_accessible"@) <==> attr & ATTR_CLIENT_ACCESSIBLE != 0,
        attr_names(attr).contains("No_Writers"@) <==> attr & ATTR_NO_WRITERS != 0,
        attr_names(attr).contains("Transportable"@) <==> attr & ATTR_TRANSPORTABLE != 0,
        attr_names(attr).contains("Not_Surfaced"@) <==> attr & ATTR_NOT_SURFACED != 0,
        attr_names(attr).contains("Not_Transacted"@) <==> attr & ATTR_NOT_TRANSACTED != 0,
        attr_names(attr).contains("Hardware"@) <==> attr & ATTR_HARDWARE_ASSISTED != 0,
        attr_names(attr).contains("Differential"@) <==> attr & ATTR_DIFFERENTIAL != 0,
        attr_names(attr).contains("Plex"@) <==> attr & ATTR_PLEX != 0,
        attr_names(attr).contains("Imported"@) <==> attr & ATTR_IMPORTED != 0,
        attr_names(attr).contains("Exposed_Locally"@) <==> attr & ATTR_EXPOSED_LOCALLY != 0,
        attr_names(attr).contains("Exposed_Remotely"@) <==> attr & ATTR_EXPOSED_REMOTELY != 0,
        attr_names(attr).contains("Autorecover"@) <==> attr & ATTR_AUTORECOVER != 0,
        attr_names(attr).contains("Rollback_Recovery"@) <==> attr & ATTR_ROLLBACK_RECOVERY != 0,
        attr_names(attr).contains("Delayed_Postsnapshot"@) <==> attr & ATTR_DELAYED_POSTSNAPSHOT != 0,
        attr_names(attr).contains("Txf_Recovery"@) <==> attr & ATTR_TXF_RECOVERY != 0,
        attr_names(attr).contains("File_Share"@) <==> attr & ATTR_FILE_SHARE != 0,
{
    reveal_strlit("No_Auto_Release");
    reveal_strlit("Auto_Release");
    assert forall|x: Seq<char>| #[trigger] attr_names(attr).contains(x) <==> (
        (x == "Persistent"@ && attr & ATTR_PERSISTENT != 0)
        || (x == "No_AutoRecovery"@ && attr & ATTR_NO_AUTORECOVERY != 0)
        || (x == "Client_accessible"@ && attr & ATTR_CLIENT_ACCESSIBLE != 0)
        || (x == "No_Auto_Release"@ && attr & ATTR_NO_AUTO_RELEASE != 0) || (x == "Auto_Release"@ && attr & ATTR_NO_AUTO_RELEASE == 0)
        || (x == "No_Writers"@ && attr & ATTR_NO_WRITERS != 0)
        || (x == "Transportable"@ && attr & ATTR_TRANSPORTABLE != 0)
        || (x == "Not_Surfaced"@ && attr & ATTR_NOT_SURFACED != 0)
        || (x == "Not_Transacted"@ && attr & ATTR_NOT_TRANSACTED != 0)
        || (x == "Hardware"@ && attr & ATTR_HARDWARE_ASSISTED != 0)
        || (x == "Differential"@ && attr & ATTR_DIFFERENTIAL != 0)
        || (x == "Plex"@ && attr & ATTR_PLEX != 0)
        || (x == "Imported"@ && attr & ATTR_IMPORTED != 0)
        || (x == "Exposed_Locally"@ && attr & ATTR_EXPOSED_LOCALLY != 0)
        || (x == "Exposed_Remotely"@ && attr & ATTR_EXPOSED_REMOTELY != 0)
        || (x == "Autorecover"@ && attr & ATTR_AUTORECOVER != 0)
        || (x == "Rollback_Recovery"@ && attr & ATTR_ROLLBACK_RECOVERY != 0)
        || (x == "Delayed_Postsnapshot"@ && attr & ATTR_DELAYED_POSTSNAPSHOT != 0)
        || (x == "Txf_Recovery"@ && attr & ATTR_TXF_RECOVERY != 0)
        || (x == "File_Share"@ && attr & ATTR_FILE_SHARE != 0)
    ) by {
        lemma_entry_contains(attr, ATTR_PERSISTENT, "Persistent"@, x);
        lemma_entry_contains(attr, ATTR_NO_AUTORECOVERY, "No_AutoRecovery"@, x);
        lemma_entry_contains(attr, ATTR_CLIENT_ACCESSIBLE, "Client_accessible"@, x);
        lemma_entry_contains(attr, ATTR_NO_WRITERS, "No_Writers"@, x);
        lemma_entry_contains(attr, ATTR_TRANSPORTABLE, "Transportable"@, x);
        lemma_entry_contains(attr, ATTR_NOT_SURFACED, "Not_Surfaced"@, x);
        lemma_entry_contains(attr, ATTR_NOT_TRANSACTED, "Not_Transacted"@, x);
        lemma_entry_contains(attr, ATTR_HARDWARE_ASSISTED, "Hardware"@, x);
        lemma_entry_contains(attr, ATTR_DIFFERENTIAL, "Differential"@, x);
        lemma_entry_contains(attr, ATTR_PLEX, "Plex"@, x);
        lemma_entry_contains(attr, ATTR_IMPORTED, "Imported"@, x);
        lemma_entry_contains(attr, ATTR_EXPOSED_LOCALLY, "Exposed_Locally"@, x);
        lemma_entry_contains(attr, ATTR_EXPOSED_REMOTELY, "Exposed_Remotely"@, x);
        lemma_entry_contains(attr, ATTR_AUTORECOVER, "Autorecover"@, x);
        lemma_entry_contains(attr, ATTR_ROLLBACK_RECOVERY, "Rollback_Recovery"@, x);
        lemma_entry_contains(attr, ATTR_DELAYED_POSTSNAPSHOT, "Delayed_Postsnapshot"@, x);
        lemma_entry_contains(attr, ATTR_TXF_RECOVERY, "Txf_Recovery"@, x);
        lemma_entry_contains(attr, ATTR_FILE_SHARE, "File_Share"@, x);
        lemma_release_contains(attr, x);
        lemma_contains_concat(flag_entry(attr, ATTR_PERSISTENT, "Persistent"@), flag_entry(attr, ATTR_NO_AUTORECOVERY, "No_AutoRecovery"@), x);
        lemma_contains_concat(flag_entry(attr, ATTR_PERSISTENT, "Persistent"@) + flag_entry(attr, ATTR_NO_AUTORECOVERY, "No_AutoRecovery"@), flag_entry(attr, ATTR_CLIENT_ACCESSIBLE, "Client_accessible"@), x);
        lemma_contains_concat(flag_entry(attr, ATTR_PERSISTENT, "Persistent"@) + flag_entry(attr, ATTR_NO_AUTORECOVERY, "No_AutoRecovery"@) + flag_entry(attr, ATTR_CLIENT_ACCESSIBLE, "Client_accessible"@), release_entry(attr), x);
        lemma_contains_concat(flag_entry(attr, ATTR_PERSISTENT, "Persistent"@) + flag_entry(attr, ATTR_NO_AUTORECOVERY, "No_AutoRecovery"@) + flag_entry(attr, ATTR_CLIENT_ACCESSIBLE, "Client_accessible"@) + release_entry(attr), flag_entry(attr, ATTR_NO_WRITERS, "No_Writers"@), x);
        lemma_contains_concat(flag_entry(attr, ATTR_PERSISTENT, "Persistent"@) + flag_entry(attr, ATTR_NO_AUTORECOVERY, "No_AutoRecovery"@) + flag_entry(attr, ATTR_CLIENT_ACCESSIBLE, "Client_accessible"@) + release_entry(attr) + flag_entry(attr, ATTR_NO_WRITERS, "No_Writers"@), flag_entry(attr, ATTR_TRANSPORTABLE, "Transportable"@), x);
        lemma_contains_concat(flag_entry(attr, ATTR_PERSISTENT, "Persistent"@) + flag_entry(attr, ATTR_NO_AUTORECOVERY, "No_AutoRecovery"@) + flag_entry(attr, ATTR_CLIENT_ACCESSIBLE, "Client_accessible"@) + release_entry(attr) + flag_entry(attr, ATTR_NO_WRITERS, "No_Writers"@) + flag_entry(attr, ATTR_TRANSPORTABLE, "Transportable"@), flag_entry(attr, ATTR_NOT_SURFACED, "Not_Surfaced"@), x);
        lemma_contains_concat(flag_entry(attr, ATTR_PERSISTENT, "Persistent"@) + flag_entry(attr, ATTR_NO_AUTORECOVERY, "No_AutoRecovery"@) + flag_entry(attr, ATTR_CLIENT_ACCESSIBLE, "Client_accessible"@) + release_entry(attr) + flag_entry(attr, ATTR_NO_WRITERS, "No_Writers"@) + flag_entry(attr, ATTR_TRANSPORTABLE, "Transportable"@) + flag_entry(attr, ATTR_NOT_SURFACED, "Not_Surfaced"@), flag_entry(attr, ATTR_NOT_TRANSACTED, "Not_Transacted"@), x);
        lemma_contains_concat(flag_entry(attr, ATTR_PERSISTENT, "Persistent"@) + flag_entry(attr, ATTR_NO_AUTORECOVERY, "No_AutoRecovery"@) + flag_entry(attr, ATTR_CLIENT_ACCESSIBLE, "Client_accessible"@) + release_entry(attr) + flag_entry(attr, ATTR_NO_WRITERS, "No_Writers"@) + flag_entry(attr, ATTR_TRANSPORTABLE, "Transportable"@) + flag_entry(attr, ATTR_NOT_SURFACED, "Not_Surfaced"@) + flag_entry(attr, ATTR_NOT_TRANSACTED, "Not_Transacted"@), flag_entry(attr, ATTR_HARDWARE_ASSISTED, "Hardware"@), x);
        lemma_contains_concat(flag_entry(attr, ATTR_PERSISTENT, "Persistent"@) + flag_entry(attr, ATTR_NO_AUTORECOVERY, "No_AutoRecovery"@) + flag_entry(attr, ATTR_CLIENT_ACCESSIBLE, "Client_accessible"@) + release_entry(attr) + flag_entry(attr, ATTR_NO_WRITERS, "No_Writers"@) + flag_entry(attr, ATTR_TRANSPORTABLE, "Transportable"@) + flag_entry(attr, ATTR_NOT_SURFACED, "Not_Surfaced"@) + flag_entry(attr, ATTR_NOT_TRANSACTED, "Not_Transacted"@) + flag_entry(attr, ATTR_HARDWARE_ASSISTED, "Hardware"@), flag_entry(attr, ATTR_DIFFERENTIAL, "Differential"@), x);
        lemma_contains_concat(flag_entry(attr, ATTR_PERSISTENT, "Persistent"@) + flag_entry(attr, ATTR_NO_AUTORECOVERY, "No_AutoRecovery"@) + flag_entry(attr, ATTR_CLIENT_ACCESSIBLE, "Client_accessible"@) + release_entry(attr) + flag_entry(attr, ATTR_NO_WRITERS, "No_Writers"@) + flag_entry(attr, ATTR_TRANSPORTABLE, "Transportable"@) + flag_entry(attr, ATTR_NOT_SURFACED, "Not_Surfaced"@) + flag_entry(attr, ATTR_NOT_TRANSACTED, "Not_Transacted"@) + flag_entry(attr, ATTR_HARDWARE_ASSISTED, "Hardware"@) + flag_entry(attr, ATTR_DIFFERENTIAL, "Differential"@), flag_entry(attr, ATTR_PLEX, "Plex"@), x);
        lemma_contains_concat(flag_entry(attr, ATTR_PERSISTENT, "Persistent"@) + flag_entry(attr, ATTR_NO_AUTORECOVERY, "No_AutoRecovery"@) + flag_entry(attr, ATTR_CLIENT_ACCESSIBLE, "Client_accessible"@) + release_entry(attr) + flag_entry(attr, ATTR_NO_WRITERS, "No_Writers"@) + flag_entry(attr, ATTR_TRANSPORTABLE, "Transportable"@) + flag_entry(attr, ATTR_NOT_SURFACED, "Not_Surfaced"@) + flag_entry(attr, ATTR_NOT_TRANSACTED, "Not_Transacted"@) + flag_entry(attr, ATTR_HARDWARE_ASSISTED, "Hardware"@) + flag_entry(attr, ATTR_DIFFERENTIAL, "Differential"@) + flag_entry(attr, ATTR_PLEX, "Plex"@), flag_entry(attr, ATTR_IMPORTED, "Imported"@), x);
        lemma_contains_concat(flag_entry(attr, ATTR_PERSISTENT, "Persistent"@) + flag_entry(attr, ATTR_NO_AUTORECOVERY, "No_AutoRecovery"@) + flag_entry(attr, ATTR_CLIENT_ACCESSIBLE, "Client_accessible"@) + release_entry(attr) + flag_entry(attr, ATTR_NO_WRITERS, "No_Writers"@) + flag_entry(attr, ATTR_TRANSPORTABLE, "Transportable"@) + flag_entry(attr, ATTR_NOT_SURFACED, "Not_Surfaced"@) + flag_entry(attr, ATTR_NOT_TRANSACTED, "Not_Transacted"@) + flag_entry(attr, ATTR_HARDWARE_ASSISTED, "Hardware"@) + flag_entry(attr, ATTR_DIFFERENTIAL, "Differential"@) + flag_entry(attr, ATTR_PLEX, "Plex"@) + flag_entry(attr, ATTR_IMPORTED, "Imported"@), flag_entry(attr, ATTR_EXPOSED_LOCALLY, "Exposed_Locally"@), x);
        lemma_contains_concat(flag_entry(attr, ATTR_PERSISTENT, "Persistent"@) + flag_entry(attr, ATTR_NO_AUTORECOVERY, "No_AutoRecovery"@) + flag_entry(attr, ATTR_CLIENT_ACCESSIBLE, "Client_accessible"@) + release_entry(attr) + flag_entry(attr, ATTR_NO_WRITERS, "No_Writers"@) + flag_entry(attr, ATTR_TRANSPORTABLE, "Transportable"@) + flag_entry(attr, ATTR_NOT_SURFACED, "Not_Surfaced"@) + flag_entry(attr, ATTR_NOT_TRANSACTED, "Not_Transacted"@) + flag_entry(attr, ATTR_HARDWARE_ASSISTED, "Hardware"@) + flag_entry(attr, ATTR_DIFFERENTIAL, "Differential"@) + flag_entry(attr, ATTR_PLEX, "Plex"@) + flag_entry(attr, ATTR_IMPORTED, "Imported"@) + flag_entry(attr, ATTR_EXPOSED_LOCALLY, "Exposed_Locally"@), flag_entry(attr, ATTR_EXPOSED_REMOTELY, "Exposed_Remotely"@), x);
        lemma_contains_concat(flag_entry(attr, ATTR_PERSISTENT, "Persistent"@) + flag_entry(attr, ATTR_NO_AUTORECOVERY, "No_AutoRecovery"@) + flag_entry(attr, ATTR_CLIENT_ACCESSIBLE, "Client_accessible"@) + release_entry(attr) + flag_entry(attr, ATTR_NO_WRITERS, "No_Writers"@) + flag_entry(attr, ATTR_TRANSPORTABLE, "Transportable"@) + flag_entry(attr, ATTR_NOT_SURFACED, "Not_Surfaced"@) + flag_entry(attr, ATTR_NOT_TRANSACTED, "Not_Transacted"@) + flag_entry(attr, ATTR_HARDWARE_ASSISTED, "Hardware"@) + flag_entry(attr, ATTR_DIFFERENTIAL, "Differential"@) + flag_entry(attr, ATTR_PLEX, "Plex"@) + flag_entry(attr, ATTR_IMPORTED, "Imported"@) + flag_entry(attr, ATTR_EXPOSED_LOCALLY, "Exposed_Locally"@) + flag_entry(attr, ATTR_EXPOSED_REMOTELY, "Exposed_Remotely"@), flag_entry(attr, ATTR_AUTORECOVER, "Autorecover"@), x);
        lemma_contains_concat(flag_entry(attr, ATTR_PERSISTENT, "Persistent"@) + flag_entry(attr, ATTR_NO_AUTORECOVERY, "No_AutoRecovery"@) + flag_entry(attr, ATTR_CLIENT_ACCESSIBLE, "Client_accessible"@) + release_entry(attr) + flag_entry(attr, ATTR_NO_WRITERS, "No_Writers"@) + flag_entry(attr, ATTR_TRANSPORTABLE, "Transportable"@) + flag_entry(attr, ATTR_NOT_SURFACED, "Not_Surfaced"@) + flag_entry(attr, ATTR_NOT_TRANSACTED, "Not_Transacted"@) + flag_entry(attr, ATTR_HARDWARE_ASSISTED, "Hardware"@) + flag_entry(attr, ATTR_DIFFERENTIAL, "Differential"@) + flag_entry(attr, ATTR_PLEX, "Plex"@) + flag_entry(attr, ATTR_IMPORTED, "Imported"@) + flag_entry(attr, ATTR_EXPOSED_LOCALLY, "Exposed_Locally"@) + flag_entry(attr, ATTR_EXPOSED_REMOTELY, "Exposed_Remotely"@) + flag_entry(attr, ATTR_AUTORECOVER, "Autorecover"@), flag_entry(attr, ATTR_ROLLBACK_RECOVERY, "Rollback_Recovery"@), x);
        lemma_contains_concat(flag_entry(attr, ATTR_PERSISTENT, "Persistent"@) + flag_entry(attr, ATTR_NO_AUTORECOVERY, "No_AutoRecovery"@) + flag_entry(attr, ATTR_CLIENT_ACCESSIBLE, "Client_accessible"@) + release_entry(attr) + flag_entry(attr, ATTR_NO_WRITERS, "No_Writers"@) + flag_entry(attr, ATTR_TRANSPORTABLE, "Transportable"@) + flag_entry(attr, ATTR_NOT_SURFACED, "Not_Surfaced"@) + flag_entry(attr, ATTR_NOT_TRANSACTED, "Not_Transacted"@) + flag_entry(attr, ATTR_HARDWARE_ASSISTED, "Hardware"@) + flag_entry(attr, ATTR_DIFFERENTIAL, "Differential"@) + flag_entry(attr, ATTR_PLEX, "Plex"@) + flag_entry(attr, ATTR_IMPORTED, "Imported"@) + flag_entry(attr, ATTR_EXPOSED_LOCALLY, "Exposed_Locally"@) + flag_entry(attr, ATTR_EXPOSED_REMOTELY, "Exposed_Remotely"@) + flag_entry(attr, ATTR_AUTORECOVER, "Autorecover"@) + flag_entry(attr, ATTR_ROLLBACK_RECOVERY, "Rollback_Recovery"@), flag_entry(attr, ATTR_DELAYED_POSTSNAPSHOT, "Delayed_Postsnapshot"@), x);
        lemma_contains_concat(flag_entry(attr, ATTR_PERSISTENT, "Persistent"@) + flag_entry(attr, ATTR_NO_AUTORECOVERY, "No_AutoRecovery"@) + flag_entry(attr, ATTR_CLIENT_ACCESSIBLE, "Client_accessible"@) + release_entry(attr) + flag_entry(attr, ATTR_NO_WRITERS, "No_Writers"@) + flag_entry(attr, ATTR_TRANSPORTABLE, "Transportable"@) + flag_entry(attr, ATTR_NOT_SURFACED, "Not_Surfaced"@) + flag_entry(attr, ATTR_NOT_TRANSACTED, "Not_Transacted"@) + flag_entry(attr, ATTR_HARDWARE_ASSISTED, "Hardware"@) + flag_entry(attr, ATTR_DIFFERENTIAL, "Differential"@) + flag_entry(attr, ATTR_PLEX, "Plex"@) + flag_entry(attr, ATTR_IMPORTED, "Imported"@) + flag_entry(attr, ATTR_EXPOSED_LOCALLY, "Exposed_Locally"@) + flag_entry(attr, ATTR_EXPOSED_REMOTELY, "Exposed_Remotely"@) + flag_entry(attr, ATTR_AUTORECOVER, "Autorecover"@) + flag_entry(attr, ATTR_ROLLBACK_RECOVERY, "Rollback_Recovery"@) + flag_entry(attr, ATTR_DELAYED_POSTSNAPSHOT, "Delayed_Postsnapshot"@), flag_entry(attr, ATTR_TXF_RECOVERY, "Txf_Recovery"@), x);
        lemma_contains_concat(flag_entry(attr, ATTR_PERSISTENT, "Persistent"@) + flag_entry(attr, ATTR_NO_AUTORECOVERY, "No_AutoRecovery"@) + flag_entry(attr, ATTR_CLIENT_ACCESSIBLE, "Client_accessible"@) + release_entry(attr) + flag_entry(attr, ATTR_NO_WRITERS, "No_Writers"@) + flag_entry(attr, ATTR_TRANSPORTABLE, "Transportable"@) + flag_entry(attr, ATTR_NOT_SURFACED, "Not_Surfaced"@) + flag_entry(attr, ATTR_NOT_TRANSACTED, "Not_Transacted"@) + flag_entry(attr, ATTR_HARDWARE_ASSISTED, "Hardware"@) + flag_entry(attr, ATTR_DIFFERENTIAL, "Differential"@) + flag_entry(attr, ATTR_PLEX, "Plex"@) + flag_entry(attr, ATTR_IMPORTED, "Imported"@) + flag_entry(attr, ATTR_EXPOSED_LOCALLY, "Exposed_Locally"@) + flag_entry(attr, ATTR_EXPOSED_REMOTELY, "Exposed_Remotely"@) + flag_entry(attr, ATTR_AUTORECOVER, "Autorecover"@) + flag_entry(attr, ATTR_ROLLBACK_RECOVERY, "Rollback_Recovery"@) + flag_entry(attr, ATTR_DELAYED_POSTSNAPSHOT, "Delayed_Postsnapshot"@) + flag_entry(attr, ATTR_TXF_RECOVERY, "Txf_Recovery"@), flag_entry(attr, ATTR_FILE_SHARE, "File_Share"@), x);
    }
        reveal_strlit("Persistent");
        reveal_strlit("No_AutoRecovery");
        reveal_strlit("Client_accessible");
        reveal_strlit("No_Writers");
        reveal_strlit("Transportable");
        reveal_strlit("Not_Surfaced");
        reveal_strlit("Not_Transacted");
        reveal_strlit("Hardware");
        reveal_strlit("Differential");
        reveal_strlit("Plex");
        reveal_strlit("Imported");
        reveal_strlit("Exposed_Locally");
        reveal_strlit("Exposed_Remotely");
        reveal_strlit("Autorecover");
        reveal_strlit("Rollback_Recovery");
        reveal_strlit("Delayed_Postsnapshot");
        reveal_strlit("Txf_Recovery");
        reveal_strlit("File_Share");
    // the names are distinct: by length, or else by a character
    assert("Persistent"@.len() != "No_AutoRecovery"@.len());
    assert("Persistent"@ != "No_AutoRecovery"@);
    assert("Persistent"@.len() != "Client_accessible"@.len());
    assert("Persistent"@ != "Client_accessible"@);
    assert("Persistent"@.len() != "No_Auto_Release"@.len());
    assert("Persistent"@ != "No_Auto_Release"@);
    assert("Persistent"@.len() != "Auto_Release"@.len());
    assert("Persistent"@ != "Auto_Release"@);
    assert("Persistent"@[0] != "No_Writers"@[0]);
    assert("Persistent"@ != "No_Writers"@);
    assert("Persistent"@.len() != "Transportable"@.len());
    assert("Persistent"@ != "Transportable"@);
    assert("Persistent"@.len() != "Not_Surfaced"@.len());
    assert("Persistent"@ != "Not_Surfaced"@);
    assert("Persistent"@.len() != "Not_Transacted"@.len());
    assert("Persistent"@ != "Not_Transacted"@);
    assert("Persistent"@.len() != "Hardware"@.len());
    assert("Persistent"@ != "Hardware"@);
    assert("Persistent"@.len() != "Differential"@.len());
    assert("Persistent"@ != "Differential"@);
    assert("Persistent"@.len() != "Plex"@.len());
    assert("Persistent"@ != "Plex"@);
    assert("Persistent"@.len() != "Imported"@.len());
    assert("Persistent"@ != "Imported"@);
    assert("Persistent"@.len() != "Exposed_Locally"@.len());
    assert("Persistent"@ != "Exposed_Locally"@);
    assert("Persistent"@.len() != "Exposed_Remotely"@.len());
    assert("Persistent"@ != "Exposed_Remotely"@);
    assert("Persistent"@.len() != "Autorecover"@.len());
    assert("Persistent"@ != "Autorecover"@);
    assert("Persistent"@.len() != "Rollback_Recovery"@.len());
    assert("Persistent"@ != "Rollback_Recovery"@);
    assert("Persistent"@.len() != "Delayed_Postsnapshot"@.len());
    assert("Persistent"@ != "Delayed_Postsnapshot"@);
    assert("Persistent"@.len() != "Txf_Recovery"@.len());
    assert("Persistent"@ != "Txf_Recovery"@);
    assert("Persistent"@[0] != "File_Share"@[0]);
    assert("Persistent"@ != "File_Share"@);
    assert("No_AutoRecovery"@.len() != "Client_accessible"@.len());
    assert("No_AutoRecovery"@ != "Client_accessible"@);
    assert("No_AutoRecovery"@[7] != "No_Auto_Release"@[7]);
    assert("No_AutoRecovery"@ != "No_Auto_Release"@);
    assert("No_AutoRecovery"@.len() != "Auto_Release"@.len());
    assert("No_AutoRecovery"@ != "Auto_Release"@);
    assert("No_AutoRecovery"@.len() != "No_Writers"@.len());
    assert("No_AutoRecovery"@ != "No_Writers"@);
    assert("No_AutoRecovery"@.len() != "Transportable"@.len());
    assert("No_AutoRecovery"@ != "Transportable"@);
    assert("No_AutoRecovery"@.len() != "Not_Surfaced"@.len());
    assert("No_AutoRecovery"@ != "Not_Surfaced"@);
    assert("No_AutoRecovery"@.len() != "Not_Transacted"@.len());
    assert("No_AutoRecovery"@ != "Not_Transacted"@);
    assert("No_AutoRecovery"@.len() != "Hardware"@.len());
    assert("No_AutoRecovery"@ != "Hardware"@);
    assert("No_AutoRecovery"@.len() != "Differential"@.len());
    assert("No_AutoRecovery"@ != "Differential"@);
    assert("No_AutoRecovery"@.len() != "Plex"@.len());
    assert("No_AutoRecovery"@ != "Plex"@);
    assert("No_AutoRecovery"@.len() != "Imported"@.len());
    assert("No_AutoRecovery"@ != "Imported"@);
    assert("No_AutoRecovery"@[0] != "Exposed_Locally"@[0]);
    assert("No_AutoRecovery"@ != "Exposed_Locally"@);
    assert("No_AutoRecovery"@.len() != "Exposed_Remotely"@.len());
    assert("No_AutoRecovery"@ != "Exposed_Remotely"@);
    assert("No_AutoRecovery"@.len() != "Autorecover"@.len());
    assert("No_AutoRecovery"@ != "Autorecover"@);
    assert("No_AutoRecovery"@.len() != "Rollback_Recovery"@.len());
    assert("No_AutoRecovery"@ != "Rollback_Recovery"@);
    assert("No_AutoRecovery"@.len() != "Delayed_Postsnapshot"@.len());
    assert("No_AutoRecovery"@ != "Delayed_Postsnapshot"@);
    assert("No_AutoRecovery"@.len() != "Txf_Recovery"@.len());
    assert("No_AutoRecovery"@ != "Txf_Recovery"@);
    assert("No_AutoRecovery"@.len() != "File_Share"@.len());
    assert("No_AutoRecovery"@ != "File_Share"@);
    assert("Client_accessible"@.len() != "No_Auto_Release"@.len());
    assert("Client_accessible"@ != "No_Auto_Release"@);
    assert("Client_accessible"@.len() != "Auto_Release"@.len());
    assert("Client_accessible"@ != "Auto_Release"@);
    assert("Client_accessible"@.len() != "No_Writers"@.len());
    assert("Client_accessible"@ != "No_Writers"@);
    assert("Client_accessible"@.len() != "Transportable"@.len());
    assert("Client_accessible"@ != "Transportable"@);
    assert("Client_accessible"@.len() != "Not_Surfaced"@.len());
    assert("Client_accessible"@ != "Not_Surfaced"@);
    assert("Client_accessible"@.len() != "Not_Transacted"@.len());
    assert("Client_accessible"@ != "Not_Transacted"@);
    assert("Client_accessible"@.len() != "Hardware"@.len());
    assert("Client_accessible"@ != "Hardware"@);
    assert("Client_accessible"@.len() != "Differential"@.len());
    assert("Client_accessible"@ != "Differential"@);
    assert("Client_accessible"@.len() != "Plex"@.len());
    assert("Client_accessible"@ != "Plex"@);
    assert("Client_accessible"@.len() != "Imported"@.len());
    assert("Client_accessible"@ != "Imported"@);
    assert("Client_accessible"@.len() != "Exposed_Locally"@.len());
    assert("Client_accessible"@ != "Exposed_Locally"@);
    assert("Client_accessible"@.len() != "Exposed_Remotely"@.len());
    assert("Client_accessible"@ != "Exposed_Remotely"@);
    assert("Client_accessible"@.len() != "Autorecover"@.len());
    assert("Client_accessible"@ != "Autorecover"@);
    assert("Client_accessible"@[0] != "Rollback_Recovery"@[0]);
    assert("Client_accessible"@ != "Rollback_Recovery"@);
    assert("Client_accessible"@.len() != "Delayed_Postsnapshot"@.len());
    assert("Client_accessible"@ != "Delayed_Postsnapshot"@);
    assert("Client_accessible"@.len() != "Txf_Recovery"@.len());
    assert("Client_accessible"@ != "Txf_Recovery"@);
    assert("Client_accessible"@.len() != "File_Share"@.len());
    assert("Client_accessible"@ != "File_Share"@);
    assert("No_Auto_Release"@.len() != "Auto_Release"@.len());
    assert("No_Auto_Release"@ != "Auto_Release"@);
    assert("No_Auto_Release"@.len() != "No_Writers"@.len());
    assert("No_Auto_Release"@ != "No_Writers"@);
    assert("No_Auto_Release"@.len() != "Transportable"@.len());
    assert("No_Auto_Release"@ != "Transportable"@);
    assert("No_Auto_Release"@.len() != "Not_Surfaced"@.len());
    assert("No_Auto_Release"@ != "Not_Surfaced"@);
    assert("No_Auto_Release"@.len() != "Not_Transacted"@.len());
    assert("No_Auto_Release"@ != "Not_Transacted"@);
    assert("No_Auto_Release"@.len() != "Hardware"@.len());
    assert("No_Auto_Release"@ != "Hardware"@);
    assert("No_Auto_Release"@.len() != "Differential"@.len());
    assert("No_Auto_Release"@ != "Differential"@);
    assert("No_Auto_Release"@.len() != "Plex"@.len());
    assert("No_Auto_Release"@ != "Plex"@);
    assert("No_Auto_Release"@.len() != "Imported"@.len());
    assert("No_Auto_Release"@ != "Imported"@);
    assert("No_Auto_Release"@[0] != "Exposed_Locally"@[0]);
    assert("No_Auto_Release"@ != "Exposed_Locally"@);
    assert("No_Auto_Release"@.len() != "Exposed_Remotely"@.len());
    assert("No_Auto_Release"@ != "Exposed_Remotely"@);
    assert("No_Auto_Release"@.len() != "Autorecover"@.len());
    assert("No_Auto_Release"@ != "Autorecover"@);
    assert("No_Auto_Release"@.len() != "Rollback_Recovery"@.len());
    assert("No_Auto_Release"@ != "Rollback_Recovery"@);
    assert("No_Auto_Release"@.len() != "Delayed_Postsnapshot"@.len());
    assert("No_Auto_Release"@ != "Delayed_Postsnapshot"@);
    assert("No_Auto_Release"@.len() != "Txf_Recovery"@.len());
    assert("No_Auto_Release"@ != "Txf_Recovery"@);
    assert("No_Auto_Release"@.len() != "File_Share"@.len());
    assert("No_Auto_Release"@ != "File_Share"@);
    assert("Auto_Release"@.len() != "No_Writers"@.len());
    assert("Auto_Release"@ != "No_Writers"@);
    assert("Auto_Release"@.len() != "Transportable"@.len());
    assert("Auto_Release"@ != "Transportable"@);
    assert("Auto_Release"@[0] != "Not_Surfaced"@[0]);
    assert("Auto_Release"@ != "Not_Surfaced"@);
    assert("Auto_Release"@.len() != "Not_Transacted"@.len());
    assert("Auto_Release"@ != "Not_Transacted"@);
    assert("Auto_Release"@.len() != "Hardware"@.len());
    assert("Auto_Release"@ != "Hardware"@);
    assert("Auto_Release"@[0] != "Differential"@[0]);
    assert("Auto_Release"@ != "Differential"@);
    assert("Auto_Release"@.len() != "Plex"@.len());
    assert("Auto_Release"@ != "Plex"@);
    assert("Auto_Release"@.len() != "Imported"@.len());
    assert("Auto_Release"@ != "Imported"@);
    assert("Auto_Release"@.len() != "Exposed_Locally"@.len());
    assert("Auto_Release"@ != "Exposed_Locally"@);
    assert("Auto_Release"@.len() != "Exposed_Remotely"@.len());
    assert("Auto_Release"@ != "Exposed_Remotely"@);
    assert("Auto_Release"@.len() != "Autorecover"@.len());
    assert("Auto_Release"@ != "Autorecover"@);
    assert("Auto_Release"@.len() != "Rollback_Recovery"@.len());
    assert("Auto_Release"@ != "Rollback_Recovery"@);
    assert("Auto_Release"@.len() != "Delayed_Postsnapshot"@.len());
    assert("Auto_Release"@ != "Delayed_Postsnapshot"@);
    assert("Auto_Release"@[0] != "Txf_Recovery"@[0]);
    assert("Auto_Release"@ != "Txf_Recovery"@);
    assert("Auto_Release"@.len() != "File_Share"@.len());
    assert("Auto_Release"@ != "File_Share"@);
    assert("No_Writers"@.len() != "Transportable"@.len());
    assert("No_Writers"@ != "Transportable"@);
    assert("No_Writers"@.len() != "Not_Surfaced"@.len());
    assert("No_Writers"@ != "Not_Surfaced"@);
    assert("No_Writers"@.len() != "Not_Transacted"@.len());
    assert("No_Writers"@ != "Not_Transacted"@);
    assert("No_Writers"@.len() != "Hardware"@.len());
    assert("No_Writers"@ != "Hardware"@);
    assert("No_Writers"@.len() != "Differential"@.len());
    assert("No_Writers"@ != "Differential"@);
    assert("No_Writers"@.len() != "Plex"@.len());
    assert("No_Writers"@ != "Plex"@);
    assert("No_Writers"@.len() != "Imported"@.len());
    assert("No_Writers"@ != "Imported"@);
    assert("No_Writers"@.len() != "Exposed_Locally"@.len());
    assert("No_Writers"@ != "Exposed_Locally"@);
    assert("No_Writers"@.len() != "Exposed_Remotely"@.len());
    assert("No_Writers"@ != "Exposed_Remotely"@);
    assert("No_Writers"@.len() != "Autorecover"@.len());
    assert("No_Writers"@ != "Autorecover"@);
    assert("No_Writers"@.len() != "Rollback_Recovery"@.len());
    assert("No_Writers"@ != "Rollback_Recovery"@);
    assert("No_Writers"@.len() != "Delayed_Postsnapshot"@.len());
    assert("No_Writers"@ != "Delayed_Postsnapshot"@);
    assert("No_Writers"@.len() != "Txf_Recovery"@.len());
    assert("No_Writers"@ != "Txf_Recovery"@);
    assert("No_Writers"@[0] != "File_Share"@[0]);
    assert("No_Writers"@ != "File_Share"@);
    assert("Transportable"@.len() != "Not_Surfaced"@.len());
    assert("Transportable"@ != "Not_Surfaced"@);
    assert("Transportable"@.len() != "Not_Transacted"@.len());
    assert("Transportable"@ != "Not_Transacted"@);
    assert("Transportable"@.len() != "Hardware"@.len());
    assert("Transportable"@ != "Hardware"@);
    assert("Transportable"@.len() != "Differential"@.len());
    assert("Transportable"@ != "Differential"@);
    assert("Transportable"@.len() != "Plex"@.len());
    assert("Transportable"@ != "Plex"@);
    assert("Transportable"@.len() != "Imported"@.len());
    assert("Transportable"@ != "Imported"@);
    assert("Transportable"@.len() != "Exposed_Locally"@.len());
    assert("Transportable"@ != "Exposed_Locally"@);
    assert("Transportable"@.len() != "Exposed_Remotely"@.len());
    assert("Transportable"@ != "Exposed_Remotely"@);
    assert("Transportable"@.len() != "Autorecover"@.len());
    assert("Transportable"@ != "Autorecover"@);
    assert("Transportable"@.len() != "Rollback_Recovery"@.len());
    assert("Transportable"@ != "Rollback_Recovery"@);
    assert("Transportable"@.len() != "Delayed_Postsnapshot"@.len());
    assert("Transportable"@ != "Delayed_Postsnapshot"@);
    assert("Transportable"@.len() != "Txf_Recovery"@.len());
    assert("Transportable"@ != "Txf_Recovery"@);
    assert("Transportable"@.len() != "File_Share"@.len());
    assert("Transportable"@ != "File_Share"@);
    assert("Not_Surfaced"@.len() != "Not_Transacted"@.len());
    assert("Not_Surfaced"@ != "Not_Transacted"@);
    assert("Not_Surfaced"@.len() != "Hardware"@.len());
    assert("Not_Surfaced"@ != "Hardware"@);
    assert("Not_Surfaced"@[0] != "Differential"@[0]);
    assert("Not_Surfaced"@ != "Differential"@);
    assert("Not_Surfaced"@.len() != "Plex"@.len());
    assert("Not_Surfaced"@ != "Plex"@);
    assert("Not_Surfaced"@.len() != "Imported"@.len());
    assert("Not_Surfaced"@ != "Imported"@);
    assert("Not_Surfaced"@.len() != "Exposed_Locally"@.len());
    assert("Not_Surfaced"@ != "Exposed_Locally"@);
    assert("Not_Surfaced"@.len() != "Exposed_Remotely"@.len());
    assert("Not_Surfaced"@ != "Exposed_Remotely"@);
    assert("Not_Surfaced"@.len() != "Autorecover"@.len());
    assert("Not_Surfaced"@ != "Autorecover"@);
    assert("Not_Surfaced"@.len() != "Rollback_Recovery"@.len());
    assert("Not_Surfaced"@ != "Rollback_Recovery"@);
    assert("Not_Surfaced"@.len() != "Delayed_Postsnapshot"@.len());
    assert("Not_Surfaced"@ != "Delayed_Postsnapshot"@);
    assert("Not_Surfaced"@[0] != "Txf_Recovery"@[0]);
    assert("Not_Surfaced"@ != "Txf_Recovery"@);
    assert("Not_Surfaced"@.len() != "File_Share"@.len());
    assert("Not_Surfaced"@ != "File_Share"@);
    assert("Not_Transacted"@.len() != "Hardware"@.len());
    assert("Not_Transacted"@ != "Hardware"@);
    assert("Not_Transacted"@.len() != "Differential"@.len());
    assert("Not_Transacted"@ != "Differential"@);
    assert("Not_Transacted"@.len() != "Plex"@.len());
    assert("Not_Transacted"@ != "Plex"@);
    assert("Not_Transacted"@.len() != "Imported"@.len());
    assert("Not_Transacted"@ != "Imported"@);
    assert("Not_Transacted"@.len() != "Exposed_Locally"@.len());
    assert("Not_Transacted"@ != "Exposed_Locally"@);
    assert("Not_Transacted"@.len() != "Exposed_Remotely"@.len());
    assert("Not_Transacted"@ != "Exposed_Remotely"@);
    assert("Not_Transacted"@.len() != "Autorecover"@.len());
    assert("Not_Transacted"@ != "Autorecover"@);
    assert("Not_Transacted"@.len() != "Rollback_Recovery"@.len());
    assert("Not_Transacted"@ != "Rollback_Recovery"@);
    assert("Not_Transacted"@.len() != "Delayed_Postsnapshot"@.len());
    assert("Not_Transacted"@ != "Delayed_Postsnapshot"@);
    assert("Not_Transacted"@.len() != "Txf_Recovery"@.len());
    assert("Not_Transacted"@ != "Txf_Recovery"@);
    assert("Not_Transacted"@.len() != "File_Share"@.len());
    assert("Not_Transacted"@ != "File_Share"@);
    assert("Hardware"@.len() != "Differential"@.len());
    assert("Hardware"@ != "Differential"@);
    assert("Hardware"@.len() != "Plex"@.len());
    assert("Hardware"@ != "Plex"@);
    assert("Hardware"@[0] != "Imported"@[0]);
    assert("Hardware"@ != "Imported"@);
    assert("Hardware"@.len() != "Exposed_Locally"@.len());
    assert("Hardware"@ != "Exposed_Locally"@);
    assert("Hardware"@.len() != "Exposed_Remotely"@.len());
    assert("Hardware"@ != "Exposed_Remotely"@);
    assert("Hardware"@.len() != "Autorecover"@.len());
    assert("Hardware"@ != "Autorecover"@);
    assert("Hardware"@.len() != "Rollback_Recovery"@.len());
    assert("Hardware"@ != "Rollback_Recovery"@);
    assert("Hardware"@.len() != "Delayed_Postsnapshot"@.len());
    assert("Hardware"@ != "Delayed_Postsnapshot"@);
    assert("Hardware"@.len() != "Txf_Recovery"@.len());
    assert("Hardware"@ != "Txf_Recovery"@);
    assert("Hardware"@.len() != "File_Share"@.len());
    assert("Hardware"@ != "File_Share"@);
    assert("Differential"@.len() != "Plex"@.len());
    assert("Differential"@ != "Plex"@);
    assert("Differential"@.len() != "Imported"@.len());
    assert("Differential"@ != "Imported"@);
    assert("Differential"@.len() != "Exposed_Locally"@.len());
    assert("Differential"@ != "Exposed_Locally"@);
    assert("Differential"@.len() != "Exposed_Remotely"@.len());
    assert("Differential"@ != "Exposed_Remotely"@);
    assert("Differential"@.len() != "Autorecover"@.len());
    assert("Differential"@ != "Autorecover"@);
    assert("Differential"@.len() != "Rollback_Recovery"@.len());
    assert("Differential"@ != "Rollback_Recovery"@);
    assert("Differential"@.len() != "Delayed_Postsnapshot"@.len());
    assert("Differential"@ != "Delayed_Postsnapshot"@);
    assert("Differential"@[0] != "Txf_Recovery"@[0]);
    assert("Differential"@ != "Txf_Recovery"@);
    assert("Differential"@.len() != "File_Share"@.len());
    assert("Differential"@ != "File_Share"@);
    assert("Plex"@.len() != "Imported"@.len());
    assert("Plex"@ != "Imported"@);
    assert("Plex"@.len() != "Exposed_Locally"@.len());
    assert("Plex"@ != "Exposed_Locally"@);
    assert("Plex"@.len() != "Exposed_Remotely"@.len());
    assert("Plex"@ != "Exposed_Remotely"@);
    assert("Plex"@.len() != "Autorecover"@.len());
    assert("Plex"@ != "Autorecover"@);
    assert("Plex"@.len() != "Rollback_Recovery"@.len());
    assert("Plex"@ != "Rollback_Recovery"@);
    assert("Plex"@.len() != "Delayed_Postsnapshot"@.len());
    assert("Plex"@ != "Delayed_Postsnapshot"@);
    assert("Plex"@.len() != "Txf_Recovery"@.len());
    assert("Plex"@ != "Txf_Recovery"@);
    assert("Plex"@.len() != "File_Share"@.len());
    assert("Plex"@ != "File_Share"@);
    assert("Imported"@.len() != "Exposed_Locally"@.len());
    assert("Imported"@ != "Exposed_Locally"@);
    assert("Imported"@.len() != "Exposed_Remotely"@.len());
    assert("Imported"@ != "Exposed_Remotely"@);
    assert("Imported"@.len() != "Autorecover"@.len());
    assert("Imported"@ != "Autorecover"@);
    assert("Imported"@.len() != "Rollback_Recovery"@.len());
    assert("Imported"@ != "Rollback_Recovery"@);
    assert("Imported"@.len() != "Delayed_Postsnapshot"@.len());
    assert("Imported"@ != "Delayed_Postsnapshot"@);
    assert("Imported"@.len() != "Txf_Recovery"@.len());
    assert("Imported"@ != "Txf_Recovery"@);
    assert("Imported"@.len() != "File_Share"@.len());
    assert("Imported"@ != "File_Share"@);
    assert("Exposed_Locally"@.len() != "Exposed_Remotely"@.len());
    assert("Exposed_Locally"@ != "Exposed_Remotely"@);
    assert("Exposed_Locally"@.len() != "Autorecover"@.len());
    assert("Exposed_Locally"@ != "Autorecover"@);
    assert("Exposed_Locally"@.len() != "Rollback_Recovery"@.len());
    assert("Exposed_Locally"@ != "Rollback_Recovery"@);
    assert("Exposed_Locally"@.len() != "Delayed_Postsnapshot"@.len());
    assert("Exposed_Locally"@ != "Delayed_Postsnapshot"@);
    assert("Exposed_Locally"@.len() != "Txf_Recovery"@.len());
    assert("Exposed_Locally"@ != "Txf_Recovery"@);
    assert("Exposed_Locally"@.len() != "File_Share"@.len());
    assert("Exposed_Locally"@ != "File_Share"@);
    assert("Exposed_Remotely"@.len() != "Autorecover"@.len());
    assert("Exposed_Remotely"@ != "Autorecover"@);
    assert("Exposed_Remotely"@.len() != "Rollback_Recovery"@.len());
    assert("Exposed_Remotely"@ != "Rollback_Recovery"@);
    assert("Exposed_Remotely"@.len() != "Delayed_Postsnapshot"@.len());
    assert("Exposed_Remotely"@ != "Delayed_Postsnapshot"@);
    assert("Exposed_Remotely"@.len() != "Txf_Recovery"@.len());
    assert("Exposed_Remotely"@ != "Txf_Recovery"@);
    assert("Exposed_Remotely"@.len() != "File_Share"@.len());
    assert("Exposed_Remotely"@ != "File_Share"@);
    assert("Autorecover"@.len() != "Rollback_Recovery"@.len());
    assert("Autorecover"@ != "Rollback_Recovery"@);
    assert("Autorecover"@.len() != "Delayed_Postsnapshot"@.len());
    assert("Autorecover"@ != "Delayed_Postsnapshot"@);
    assert("Autorecover"@.len() != "Txf_Recovery"@.len());
    assert("Autorecover"@ != "Txf_Recovery"@);
    assert("Autorecover"@.len() != "File_Share"@.len());
    assert("Autorecover"@ != "File_Share"@);
    assert("Rollback_Recovery"@.len() != "Delayed_Postsnapshot"@.len());
    assert("Rollback_Recovery"@ != "Delayed_Postsnapshot"@);
    assert("Rollback_Recovery"@.len() != "Txf_Recovery"@.len());
    assert("Rollback_Recovery"@ != "Txf_Recovery"@);
    assert("Rollback_Recovery"@.len() != "File_Share"@.len());
    assert("Rollback_Recovery"@ != "File_Share"@);
    assert("Delayed_Postsnapshot"@.len() != "Txf_Recovery"@.len());
    assert("Delayed_Postsnapshot"@ != "Txf_Recovery"@);
    assert("Delayed_Postsnapshot"@.len() != "File_Share"@.len());
    assert("Delayed_Postsnapshot"@ != "File_Share"@);
    assert("Txf_Recovery"@.len() != "File_Share"@.len());
    assert("Txf_Recovery"@ != "File_Share"@);
}

// ----- snapshot states -----

/// The label of a snapshot state code; codes outside the known set are unknown.
pub open spec fn state_name(v: i32) -> Seq<char> {
    match v {
        1i32 => "VSS_SS_PREPARING"@,
        2i32 => "VSS_SS_PROCESSING_PREPARE"@,
        3i32 => "VSS_SS_PREPARED"@,
        4i32 => "VSS_SS_PROCESSING_PRECOMMIT"@,
        5i32 => "VSS_SS_PRECOMMITTED"@,
        6i32 => "VSS_SS_PROCESSING_COMMIT"@,
        7i32 => "VSS_SS_COMMITTED"@,
        8i32 => "VSS_SS_PROCESSING_POSTCOMMIT"@,
        9i32 => "VSS_SS_PROCESSING_PREFINALCOMMIT"@,
        10i32 => "VSS_SS_PREFINALCOMMITTED"@,
        11i32 => "VSS_SS_PROCESSING_POSTFINALCOMMIT"@,
        12i32 => "VSS_SS_CREATED"@,
        13i32 => "VSS_SS_ABORTED"@,
        14i32 => "VSS_SS_DELETED"@,
        15i32 => "VSS_SS_POSTCOMMITTED"@,
        16i32 => "VSS_SS_COUNT"@,
        _ => "VSS_SS_UNKNOWN"@,
    }
}

/// The label of a snapshot state code, as the service's own constant names it.
pub fn get_string_for_snapshot_state(v: i32) -> (r: String)
    ensures
        r@ == state_name(v),
{
    let res: &str = match v {
        1i32 => "VSS_SS_PREPARING",
        2i32 => "VSS_SS_PROCESSING_PREPARE",
        3i32 => "VSS_SS_PREPARED",
        4i32 => "VSS_SS_PROCESSING_PRECOMMIT",
        5i32 => "VSS_SS_PRECOMMITTED",
        6i32 => "VSS_SS_PROCESSING_COMMIT",
        7i32 => "VSS_SS_COMMITTED",
        8i32 => "VSS_SS_PROCESSING_POSTCOMMIT",
        9i32 => "VSS_SS_PROCESSING_PREFINALCOMMIT",
        10i32 => "VSS_SS_PREFINALCOMMITTED",
        11i32 => "VSS_SS_PROCESSING_POSTFINALCOMMIT",
        12i32 => "VSS_SS_CREATED",
        13i32 => "VSS_SS_ABORTED",
        14i32 => "VSS_SS_DELETED",
        15i32 => "VSS_SS_POSTCOMMITTED",
        16i32 => "VSS_SS_COUNT",
        _ => "VSS_SS_UNKNOWN",
    };
    res.to_owned()
}

// ----- timestamps -----

/// 100-nanosecond intervals in one second.
pub const INTERVALS_PER_SEC: i64 = 10_000_000;

/// 100-nanosecond intervals from 1601-01-01 to 1970-01-01, both UTC.
pub const INTERVALS_TO_UNIX_EPOCH: i64 = 116_444_736_000_000_000;

/// An instant at or after 1970-01-01T00:00:00 UTC: whole seconds since then,
/// and the nanoseconds past that second.
#[derive(Clone, Copy, Debug, PartialEq, Eq, Structural)]
pub struct Timestamp {
    pub secs: i64,
    pub nanos: u32,
}

impl Timestamp {
    pub open spec fn wf(self) -> bool {
        self.secs >= 0 && self.nanos < 1_000_000_000
    }

    /// Nanoseconds since the Unix epoch.
    pub open spec fn total_nanos(self) -> int {
        self.secs * 1_000_000_000 + self.nanos
    }

    /// The Unix epoch itself.
    pub fn unix_epoch() -> (r: Timestamp)
        ensures
            r.wf(),
            r.total_nanos() == 0,
    {
        Timestamp { secs: 0, nanos: 0 }
    }

    /// Whether `self` lies strictly before `other`.
    pub fn is_before(&self, other: &Timestamp) -> (r: bool)
        requires
            self.wf(),
            other.wf(),
        ensures
            r == (self.total_nanos() < other.total_nanos()),
    {
        self.secs < other.secs || (self.secs == other.secs && self.nanos < other.nanos)
    }
}

/// Whether a raw tick count lies at or after the Unix epoch.
pub open spec fn ticks_in_range(raw: i64) -> bool {
    raw >= INTERVALS_TO_UNIX_EPOCH
}

/// The instant that a raw tick count at or after the Unix epoch stands for.
pub open spec fn timestamp_of_ticks(raw: i64) -> Timestamp {
    let since = raw - INTERVALS_TO_UNIX_EPOCH;
    Timestamp {
        secs: (since / (INTERVALS_PER_SEC as int)) as i64,
        nanos: ((since % (INTERVALS_PER_SEC as int)) * 100) as u32,
    }
}

/// The decoded creation time of a raw tick count, given the time to fall back
/// to when the count lies before the Unix epoch.
pub open spec fn decoded_time(raw: i64, now: Timestamp) -> Timestamp {
    if ticks_in_range(raw) {
        timestamp_of_ticks(raw)
    } else {
        now
    }
}

pub proof fn lemma_ticks_exact(raw: i64)
    requires
        ticks_in_range(raw),
    ensures
        timestamp_of_ticks(raw).wf(),
        timestamp_of_ticks(raw).total_nanos() == (raw - INTERVALS_TO_UNIX_EPOCH) * 100,
{
    let since = raw - INTERVALS_TO_UNIX_EPOCH;
    assert(since == (since / 10_000_000) * 10_000_000 + since % 10_000_000);
    assert((since / 10_000_000) * 10_000_000 * 100 == (since / 10_000_000) * 1_000_000_000)
        by (nonlinear_arith);
}


/// The decoding boundary: a count equal to the epoch offset is the Unix epoch
/// itself, and one tick less falls back to the given current time.
pub proof fn lemma_epoch_boundary(now: Timestamp)
    ensures
        decoded_time(INTERVALS_TO_UNIX_EPOCH, now) == (Timestamp { secs: 0, nanos: 0 }),
        decoded_time((INTERVALS_TO_UNIX_EPOCH - 1) as i64, now) == now,
{
}

/// Relies on chrono::Utc::now: the current time, read from the system clock,
/// as whole seconds since the Unix epoch and the nanoseconds past that second.
/// chrono takes both from a `Duration` since the epoch (it panics on a clock
/// set before it), so the seconds are not negative and the nanoseconds are
/// below one second.
#[verifier::external_body]
fn clock_now() -> (r: Timestamp)
    ensures
        r.wf(),
{
    let now = chrono::Utc::now();
    Timestamp { secs: now.timestamp(), nanos: now.timestamp_subsec_nanos() }
}

/// Decodes a count of 100-nanosecond intervals since 1601-01-01 UTC. A count
/// that would fall before 1970 is not trusted: `now` stands in for it.
pub fn decode_ticks(raw: i64, now: Timestamp) -> (r: Timestamp)
    requires
        now.wf(),
    ensures
        r == decoded_time(raw, now),
        r.wf(),
{
    if raw < INTERVALS_TO_UNIX_EPOCH {
        return now;
    }
    proof {
        lemma_ticks_exact(raw);
    }
    let since: i64 = raw - INTERVALS_TO_UNIX_EPOCH;
    Timestamp { secs: since / INTERVALS_PER_SEC, nanos: ((since % INTERVALS_PER_SEC) * 100) as u32 }
}

/// Decodes a raw creation timestamp; a count before 1970 decodes to the
/// current time.
pub fn i64_to_date(raw: i64) -> (r: Timestamp)
    ensures
        r.wf(),
        ticks_in_range(raw) ==> r == timestamp_of_ticks(raw),
{
    if raw < INTERVALS_TO_UNIX_EPOCH {
        clock_now()
    } else {
        decode_ticks(raw, Timestamp::unix_epoch())
    }
}

// ----- null-terminated UTF-16 text -----

/// What `String::from_utf16_lossy` makes of a sequence of UTF-16 code units.
pub uninterp spec fn utf16_lossy(units: Seq<u16>) -> Seq<char>;

/// Relies on `String::from_utf16_lossy`: it decodes the units, putting
/// U+FFFD for each unpaired surrogate; the result depends on the units alone,
/// and no units give the empty string.
#[verifier::external_body]
fn from_utf16_lossy(units: &[u16]) -> (r: String)
    ensures
        r@ == utf16_lossy(units@),
        units@.len() == 0 ==> r@.len() == 0,
{
    String::from_utf16_lossy(units)
}

/// The units before the first NUL, or all of them when there is none.
pub open spec fn until_nul(units: Seq<u16>) -> Seq<u16>
    decreases units.len(),
{
    if units.len() == 0 || units[0] == 0 {
        Seq::empty()
    } else {
        seq![units[0]] + until_nul(units.subrange(1, units.len() as int))
    }
}

proof fn lemma_until_nul_take(units: Seq<u16>, n: int)
    requires
        0 <= n <= units.len(),
        forall|i: int| 0 <= i < n ==> units[i] != 0,
        n == units.len() || units[n] == 0,
    ensures
        until_nul(units) == units.take(n),
    decreases n,
{
    if n > 0 {
        let rest = units.subrange(1, units.len() as int);
        lemma_until_nul_take(rest, n - 1);
        assert(units.take(n) =~= seq![units[0]] + rest.take(n - 1));
    } else {
        assert(units.take(n) =~= Seq::<u16>::empty());
    }
}

/// Decodes null-terminated UTF-16 text: the units up to the first NUL, or all
/// of them when there is none.
pub fn u16_to_string(units: &[u16]) -> (r: String)
    ensures
        r@ == utf16_lossy(until_nul(units@)),
{
    let mut len: usize = 0;
    while len < units.len() && units[len] != 0
        invariant
            len <= units@.len(),
            forall|i: int| 0 <= i < len ==> units@[i] != 0,
        decreases units@.len() - len,
    {
        len = len + 1;
    }
    proof {
        lemma_until_nul_take(units@, len as int);
    }
    let mut head: Vec<u16> = Vec::new();
    let mut i: usize = 0;
    while i < len
        invariant
            len <= units@.len(),
            i <= len,
            head@ == units@.take(i as int),
        decreases len - i,
    {
        head.push(units[i]);
        i = i + 1;
        assert(head@ =~= units@.take(i as int));
    }
    from_utf16_lossy(head.as_slice())
}

} // verus!
