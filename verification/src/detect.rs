//! Process presence detector: decides whether the target application is
//! among the running processes, by a case-insensitive substring match on
//! each process name.
//!
//! A snapshot is a fresh, non-cached enumeration of process names as plain
//! byte strings (a process name need not be valid UTF-8), taken once per
//! query and then discarded. Absence of data is indistinguishable from
//! absence of the target and yields `false`. The scan over a given snapshot
//! is verified; the snapshot itself comes from the operating system through
//! a trusted call.

use vstd::prelude::*;

verus! {

/// Lower-case form of a single byte. Folding the ASCII range is all the
/// match needs: the target name is pure ASCII.
pub open spec fn ascii_lower(b: u8) -> u8 {
    if 65 <= b && b <= 90 {
        (b + 32) as u8
    } else {
        b
    }
}

/// The process-name fragment that identifies the target application: the
/// bytes of `"discord"`.
pub open spec fn target_name() -> Seq<u8> {
    seq![100u8, 105u8, 115u8, 99u8, 111u8, 114u8, 100u8]
}

/// The target fragment occurs in `name` starting at position `i`, comparing
/// case-insensitively.
pub open spec fn target_at(name: Seq<u8>, i: int) -> bool {
    &&& 0 <= i
    &&& i + target_name().len() <= name.len()
    &&& forall|j: int|
        0 <= j < target_name().len() ==> ascii_lower(name[i + j]) == target_name()[j]
}

/// `name` contains the target fragment, case-insensitively, somewhere.
pub open spec fn name_matches_target(name: Seq<u8>) -> bool {
    exists|i: int| target_at(name, i)
}

/// Some name in the snapshot matches the target.
pub open spec fn snapshot_matches(names: Seq<Vec<u8>>) -> bool {
    exists|i: int| 0 <= i < names.len() && name_matches_target(names[i]@)
}

/// Executable counterpart of [`ascii_lower`].
#[verifier::when_used_as_spec(ascii_lower)]
pub fn ascii_lower_byte(b: u8) -> (r: u8)
    ensures
        r == ascii_lower(b),
{
    if 65 <= b && b <= 90 {
        b + 32
    } else {
        b
    }
}

/// The target fragment as bytes, for the scanning loops.
fn target_bytes() -> (t: Vec<u8>)
    ensures
        t@ == target_name(),
{
    let mut t: Vec<u8> = Vec::new();
    t.push(100);
    t.push(105);
    t.push(115);
    t.push(99);
    t.push(111);
    t.push(114);
    t.push(100);
    proof {
        assert(t@ =~= target_name());
    }
    t
}

/// Case-insensitive substring search for the target fragment in one
/// process name.
pub fn name_contains_target(name: &Vec<u8>) -> (r: bool)
    ensures
        r == name_matches_target(name@),
{
    let t = target_bytes();
    if name.len() < t.len() {
        return false;
    }
    let last = name.len() - t.len();
    let mut i: usize = 0;
    while i <= last
        invariant
            t@ == target_name(),
            last + t@.len() == name@.len(),
            name@.len() <= usize::MAX,
            i <= last + 1,
            forall|k: int| 0 <= k < i ==> !target_at(name@, k),
        decreases last + 1 - i,
    {
        let mut j: usize = 0;
        let mut hit: bool = true;
        while hit && j < t.len()
            invariant
                t@ == target_name(),
                last + t@.len() == name@.len(),
                name@.len() <= usize::MAX,
                i <= last,
                j <= t@.len(),
                hit ==> forall|m: int|
                    0 <= m < j ==> ascii_lower(name@[i + m]) == target_name()[m],
                !hit ==> !target_at(name@, i as int),
            decreases t@.len() - j + (if hit { 1int } else { 0int }),
        {
            if ascii_lower_byte(name[i + j]) == t[j] {
                j = j + 1;
            } else {
                hit = false;
            }
        }
        if hit {
            assert(target_at(name@, i as int));
            return true;
        }
        i = i + 1;
    }
    assert forall|k: int| !target_at(name@, k) by {
        if 0 <= k && k + target_name().len() <= name@.len() {
            assert(k < i);
        }
    }
    false
}

/// Relies on sysinfo's `System::new_all` and `Process::name`: a fresh,
/// non-cached snapshot of the running processes' display names, one byte
/// string per process, in no particular order. The snapshot depends on the
/// machine's state at the moment of the call, so nothing is promised of it;
/// a process whose data cannot be read is simply absent.
#[verifier::external_body]
fn running_process_names() -> Vec<Vec<u8>> {
    let s = sysinfo::System::new_all();
    s.processes().values().map(|p| p.name().to_string_lossy().as_bytes().to_vec()).collect()
}

/// Whether the target application is currently running: takes a fresh
/// process snapshot and scans it. The decision on any given snapshot is
/// pinned by [`is_target_running`]; the snapshot itself depends on the
/// machine's state, so nothing more can be promised here.
pub fn is_discord_running() -> bool {
    let names = running_process_names();
    is_target_running(&names)
}

/// The detector's decision over a whole snapshot: true exactly when some
/// process name contains the target fragment, case-insensitively; false on
/// an empty snapshot or when nothing matches.
pub fn is_target_running(names: &Vec<Vec<u8>>) -> (r: bool)
    ensures
        r == snapshot_matches(names@),
{
    let mut i: usize = 0;
    while i < names.len()
        invariant
            i <= names@.len(),
            forall|k: int| 0 <= k < i ==> !name_matches_target(names@[k]@),
        decreases names@.len() - i,
    {
        if name_contains_target(&names[i]) {
            assert(0 <= i < names@.len() && name_matches_target(names@[i as int]@));
            return true;
        }
        i = i + 1;
    }
    false
}

} // verus!
