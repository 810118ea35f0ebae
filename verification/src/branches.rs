//! The branch lister: raw branch records become an ordered review list.
//!
//! A record carries what the repository gateway reports of one local branch:
//! the raw bytes of its name, the hex text of its tip commit id, the tip
//! commit's timestamp with its UTC offset, and whether it is checked out.
//! The lister decodes each name, applies the offset to obtain the commit's
//! local wall-clock time, drops the trunk branch, and orders the rest by
//! that local time, ascending.

use vstd::prelude::*;
use vstd::seq_lib::*;
use vstd::string::StrSliceExecFns;
use vstd::string::StringExecFns;
use vstd::utf8::valid_utf8;
use vstd::utf8::decode_utf8;
use vstd::utf8::is_ascii_chars;
use crate::errors::Error;
use crate::timefmt::MIN_LOCAL_SECS;
use crate::timefmt::MAX_LOCAL_SECS;
use crate::timefmt::in_time_window;
use crate::timefmt::local_time_display;
use crate::timefmt::format_local_time;

verus! {

/// What the repository gateway reports of one local branch, unprocessed.
#[derive(Debug)]
pub struct BranchRecord {
    /// The raw bytes of the branch name, not yet decoded.
    pub name_bytes: Vec<u8>,
    /// The tip commit id as fixed-width lower-case hex text.
    pub id: String,
    /// The tip commit's timestamp: seconds since the epoch, in UTC.
    pub seconds: i64,
    /// The UTC offset recorded with the timestamp, in minutes.
    pub offset_minutes: i32,
    /// Whether this branch is currently checked out.
    pub is_head: bool,
}

/// One branch offered for review.
#[derive(Debug)]
pub struct BranchDescriptor {
    /// The tip commit id as fixed-width hex text.
    pub id: String,
    /// The decoded branch name.
    pub name: String,
    /// The commit's local wall-clock time: its timestamp with the recorded
    /// UTC offset applied, in seconds.
    pub local_secs: i64,
    /// The commit's local time rendered as text, shown in the prompt.
    pub time_display: String,
    /// Whether this branch is currently checked out.
    pub is_head: bool,
}

/// The mathematical content of a descriptor.
#[verifier::ext_equal]
pub struct BranchView {
    pub id: Seq<char>,
    pub name: Seq<char>,
    pub local_secs: int,
    pub time_display: Seq<char>,
    pub is_head: bool,
}

impl View for BranchDescriptor {
    type V = BranchView;

    open spec fn view(&self) -> BranchView {
        BranchView {
            id: self.id@,
            name: self.name@,
            local_secs: self.local_secs as int,
            time_display: self.time_display@,
            is_head: self.is_head,
        }
    }
}

/// A well-formed descriptor carries a commit id of forty ASCII characters,
/// as the gateway's hex rendering of a tip commit id always is.
pub open spec fn view_wf(v: BranchView) -> bool {
    &&& is_ascii_chars(v.id)
    &&& v.id.len() == 40
}

/// The same constraint on a raw record's id text.
pub open spec fn record_id_wf(r: BranchRecord) -> bool {
    &&& is_ascii_chars(r.id@)
    &&& r.id@.len() == 40
}

/// The commit's local wall-clock time in seconds: the recorded timestamp
/// with the recorded UTC offset applied.
pub open spec fn local_secs_of(r: BranchRecord) -> int {
    r.seconds + r.offset_minutes * 60
}

/// Whether a record can be turned into a descriptor: its name decodes and
/// its local time lies in the accepted window.
pub open spec fn record_ok(r: BranchRecord) -> bool {
    &&& valid_utf8(r.name_bytes@)
    &&& in_time_window(local_secs_of(r))
}

/// The descriptor content a record decodes to.
pub open spec fn record_view(r: BranchRecord) -> BranchView {
    BranchView {
        id: r.id@,
        name: decode_utf8(r.name_bytes@),
        local_secs: local_secs_of(r),
        time_display: local_time_display(local_secs_of(r)),
        is_head: r.is_head,
    }
}

/// The index of the first record that cannot be processed, or the length
/// when every record can.
pub open spec fn first_bad(rs: Seq<BranchRecord>) -> int
    decreases rs.len(),
{
    if rs.len() == 0 {
        0
    } else if !record_ok(rs[0]) {
        0
    } else {
        1 + first_bad(rs.drop_first())
    }
}

/// The descriptor contents kept after decoding: every record in order,
/// except those whose decoded name is the trunk branch `master`.
pub open spec fn kept_views(rs: Seq<BranchRecord>) -> Seq<BranchView>
    decreases rs.len(),
{
    if rs.len() == 0 {
        Seq::empty()
    } else {
        let rest = kept_views(rs.drop_last());
        let v = record_view(rs.last());
        if v.name == "master"@ {
            rest
        } else {
            rest.push(v)
        }
    }
}

/// The contents of a descriptor sequence.
pub open spec fn views_of(s: Seq<BranchDescriptor>) -> Seq<BranchView> {
    s.map_values(|d: BranchDescriptor| d@)
}

/// Non-decreasing order of commit local time.
pub open spec fn sorted_by_time(s: Seq<BranchView>) -> bool {
    forall|i: int, j: int|
        #![trigger s[i], s[j]]
        0 <= i <= j < s.len() ==> s[i].local_secs <= s[j].local_secs
}

/// Relies on std's `String::from_utf8`: it succeeds exactly on valid UTF-8
/// and returns the decoded character sequence.
#[verifier::external_body]
pub(crate) fn utf8_to_string(b: &Vec<u8>) -> (r: Option<String>)
    ensures
        r is Some <==> valid_utf8(b@),
        r matches Some(s) ==> s@ == decode_utf8(b@),
{
    match String::from_utf8(b.clone()) {
        Ok(s) => Some(s),
        Err(_) => None,
    }
}

/// Whether a decoded branch name is the trunk branch.
pub fn is_master(s: &str) -> (b: bool)
    ensures
        b == (s@ == "master"@),
{
    proof {
        reveal_strlit("master");
    }
    if s.unicode_len() != 6 {
        return false;
    }
    let eq = s.get_char(0) == 'm' && s.get_char(1) == 'a' && s.get_char(2) == 's' && s.get_char(3)
        == 't' && s.get_char(4) == 'e' && s.get_char(5) == 'r';
    proof {
        if eq {
            assert(s@ =~= "master"@);
        }
    }
    eq
}

proof fn lemma_first_bad_at(rs: Seq<BranchRecord>, i: int)
    requires
        0 <= i <= rs.len(),
        forall|k: int| 0 <= k < i ==> record_ok(#[trigger] rs[k]),
        i < rs.len() ==> !record_ok(rs[i]),
    ensures
        first_bad(rs) == i,
    decreases i,
{
    if i == 0 {
    } else {
        assert(record_ok(rs[0]));
        lemma_first_bad_at(rs.drop_first(), i - 1);
    }
}

proof fn lemma_views_insert(s: Seq<BranchDescriptor>, j: int, d: BranchDescriptor)
    requires
        0 <= j <= s.len(),
    ensures
        views_of(s.insert(j, d)) =~= views_of(s).insert(j, d@),
{
    s.insert_ensures(j, d);
    views_of(s).insert_ensures(j, d@);
}

proof fn lemma_insert_to_multiset(s: Seq<BranchView>, j: int, v: BranchView)
    requires
        0 <= j <= s.len(),
    ensures
        s.insert(j, v).to_multiset() =~= s.to_multiset().insert(v),
{
    broadcast use vstd::seq_lib::group_to_multiset_ensures;
    broadcast use vstd::multiset::group_multiset_axioms;

    let left = s.subrange(0, j);
    let right = s.subrange(j, s.len() as int);
    assert(s.insert(j, v) =~= left.push(v) + right);
    lemma_multiset_commutative(left.push(v), right);
    assert(left.push(v).to_multiset() =~= left.to_multiset().insert(v));
    lemma_multiset_commutative(left, right);
    assert(left + right =~= s);
    assert(s.insert(j, v).to_multiset() =~= s.to_multiset().insert(v));
}

/// Builds the review list from the gateway's raw records.
///
/// The records are processed in order, fail-fast: the first record whose
/// name is not valid UTF-8 stops the listing with an `Encoding` error, and
/// the first whose local time falls outside the accepted window stops it
/// with a `Repository` error. On success the list holds exactly the
/// decoded records whose name is not `master`, ordered by commit local
/// time, non-decreasing.
pub fn build_branch_list(records: Vec<BranchRecord>) -> (r: Result<Vec<BranchDescriptor>, Error>)
    requires
        forall|k: int| 0 <= k < records@.len() ==> record_id_wf(#[trigger] records@[k]),
    ensures
        r is Ok <==> first_bad(records@) == records@.len(),
        r matches Ok(v) ==> {
            &&& views_of(v@).to_multiset() == kept_views(records@).to_multiset()
            &&& sorted_by_time(views_of(v@))
            &&& forall|k: int|
                0 <= k < v@.len() ==> (#[trigger] v@[k])@.name != "master"@
            &&& forall|k: int| 0 <= k < v@.len() ==> view_wf((#[trigger] v@[k])@)
            &&& forall|k: int|
                0 <= k < v@.len() ==> (#[trigger] v@[k])@.time_display == local_time_display(
                    v@[k]@.local_secs,
                )
        },
        r is Err ==> first_bad(records@) < records@.len(),
        r is Err ==> {
            let bad = records@[first_bad(records@)];
            if !valid_utf8(bad.name_bytes@) {
                r == Err::<Vec<BranchDescriptor>, Error>(Error::Encoding)
            } else {
                &&& r matches Err(Error::Repository(m))
                &&& m@ == "commit time out of range"@
            }
        },
{
    let ghost rs = records@;
    let mut out: Vec<BranchDescriptor> = Vec::new();
    let mut i: usize = 0;
    proof {
        assert(rs.subrange(0, 0) =~= Seq::<BranchRecord>::empty());
        assert(views_of(out@) =~= Seq::<BranchView>::empty());
    }
    while i < records.len()
        invariant
            i <= rs.len(),
            records@ == rs,
            forall|k: int| 0 <= k < rs.len() ==> record_id_wf(#[trigger] rs[k]),
            forall|k: int| 0 <= k < i ==> record_ok(#[trigger] rs[k]),
            views_of(out@).to_multiset() == kept_views(rs.subrange(0, i as int)).to_multiset(),
            sorted_by_time(views_of(out@)),
            forall|k: int| 0 <= k < out@.len() ==> (#[trigger] out@[k])@.name != "master"@,
            forall|k: int| 0 <= k < out@.len() ==> view_wf((#[trigger] out@[k])@),
            forall|k: int|
                0 <= k < out@.len() ==> (#[trigger] out@[k])@.time_display == local_time_display(
                    out@[k]@.local_secs,
                ),
        decreases rs.len() - i,
    {
        let rec = &records[i];
        let name = match utf8_to_string(&rec.name_bytes) {
            Some(name) => name,
            None => {
                proof {
                    lemma_first_bad_at(rs, i as int);
                }
                return Err(Error::Encoding);
            },
        };
        let off: i64 = (rec.offset_minutes as i64) * 60;
        if rec.seconds > MAX_LOCAL_SECS - off || rec.seconds < MIN_LOCAL_SECS - off {
            proof {
                lemma_first_bad_at(rs, i as int);
            }
            return Err(Error::Repository(String::from_str("commit time out of range")));
        }
        let local: i64 = rec.seconds + off;
        let display = format_local_time(local);
        if !is_master(name.as_str()) {
            let d = BranchDescriptor {
                id: rec.id.clone(),
                name,
                local_secs: local,
                time_display: display,
                is_head: rec.is_head,
            };
            assert(d@ =~= record_view(rs[i as int]));
            let mut j: usize = 0;
            loop
                invariant
                    j <= out@.len(),
                    forall|k: int| 0 <= k < j ==> views_of(out@)[k].local_secs <= local as int,
                ensures
                    j <= out@.len(),
                    forall|k: int| 0 <= k < j ==> views_of(out@)[k].local_secs <= local as int,
                    j < out@.len() ==> views_of(out@)[j as int].local_secs > local as int,
                decreases out@.len() - j,
            {
                if j >= out.len() {
                    break;
                }
                if out[j].local_secs > local {
                    break;
                }
                j += 1;
            }
            proof {
                lemma_views_insert(out@, j as int, d);
                lemma_insert_to_multiset(views_of(out@), j as int, d@);
                broadcast use vstd::seq_lib::group_to_multiset_ensures;

                assert(rs.subrange(0, i as int + 1).drop_last() =~= rs.subrange(0, i as int));
                assert(rs.subrange(0, i as int + 1).last() == rs[i as int]);
                views_of(out@).insert_ensures(j as int, d@);
            }
            out.insert(j, d);
        } else {
            proof {
                assert(rs.subrange(0, i as int + 1).drop_last() =~= rs.subrange(0, i as int));
                assert(rs.subrange(0, i as int + 1).last() == rs[i as int]);
                assert(record_view(rs[i as int]).name == "master"@);
            }
        }
        i += 1;
    }
    proof {
        lemma_first_bad_at(rs, rs.len() as int);
        assert(rs.subrange(0, rs.len() as int) =~= rs);
    }
    Ok(out)
}

} // verus!
