//! The pagination cursor over the remote log-group listing.
//!
//! The cursor never talks to the network itself: `begin_next` says whether a
//! page must be fetched and with which request, and `finish_next` commits a
//! fetched page. A transport failure simply never reaches `finish_next`, and
//! a parse failure commits nothing, so a failing fetch leaves the cursor
//! exactly as it was.
use vstd::prelude::*;

use vstd::string::StringExecFns;

use crate::aws::cwlogs::group::model::spec_group_from;
use crate::aws::cwlogs::group::model::CwlGroup;
use crate::aws::cwlogs::group::model::CwlGroupV;
use crate::aws::cwlogs::group::model::LogGroupRecord;
use crate::aws::cwlogs::group::model::LogGroupRecordV;
use crate::aws::cwlogs::group::model::ParseLogGroupError;
use crate::aws::cwlogs::group::model::ParseLogGroupErrorV;

verus! {

/// Why a page could not be obtained.
#[derive(Debug)]
pub enum CwlGroupCursorError {
    /// A record of the page could not be parsed.
    Parse { source: ParseLogGroupError },
    /// The transport failed; holds the transport's message.
    Remote { message: String },
}

impl CwlGroupCursorError {
    /// The error's display text.
    pub fn message(&self) -> (r: String)
        ensures
            match self {
                CwlGroupCursorError::Parse { .. } => r@ == "parse error"@,
                CwlGroupCursorError::Remote { message } => r@ == "remote error. cause:"@
                    + message@,
            },
    {
        match self {
            CwlGroupCursorError::Parse { .. } => "parse error".to_owned(),
            CwlGroupCursorError::Remote { message } => {
                let m = String::new().concat("remote error. cause:").concat(message.as_str());
                proof {
                    assert(m@ =~= "remote error. cause:"@ + message@);
                }
                m
            },
        }
    }
}

/// One page request to the remote group listing: an optional name prefix and
/// an optional continuation token.
#[derive(Debug)]
pub struct GroupsRequest {
    pub log_group_name_prefix: Option<String>,
    pub next_token: Option<String>,
}

/// Mathematical view of a page request.
pub struct GroupsRequestV {
    pub log_group_name_prefix: Option<Seq<char>>,
    pub next_token: Option<Seq<char>>,
}

impl View for GroupsRequest {
    type V = GroupsRequestV;

    open spec fn view(&self) -> GroupsRequestV {
        GroupsRequestV {
            log_group_name_prefix: match self.log_group_name_prefix {
                Some(ref s) => Some(s@),
                None => None,
            },
            next_token: match self.next_token {
                Some(ref s) => Some(s@),
                None => None,
            },
        }
    }
}

/// One page as the remote listing returns it: raw records and an optional
/// continuation token.
#[derive(Debug)]
pub struct GroupsPage {
    pub log_groups: Option<Vec<LogGroupRecord>>,
    pub next_token: Option<String>,
}

/// What parsing a whole page yields: every record parsed in order, fail-fast
/// on the first bad one.
pub open spec fn spec_groups_from(recs: Seq<LogGroupRecordV>) -> Result<
    Seq<CwlGroupV>,
    ParseLogGroupErrorV,
>
    decreases recs.len(),
{
    if recs.len() == 0 {
        Ok(Seq::empty())
    } else {
        match spec_group_from(recs[0]) {
            Err(e) => Err(e),
            Ok(g) => match spec_groups_from(recs.drop_first()) {
                Err(e) => Err(e),
                Ok(gs) => Ok(seq![g] + gs),
            },
        }
    }
}

/// A clean prefix shifts page parsing to the suffix.
proof fn lemma_groups_from_skip(recs: Seq<LogGroupRecordV>, i: int)
    requires
        0 <= i <= recs.len(),
        forall|k: int| 0 <= k < i ==> spec_group_from(#[trigger] recs[k]) is Ok,
    ensures
        match spec_groups_from(recs) {
            Ok(gs) => (spec_groups_from(recs.skip(i)) matches Ok(suffix) && gs.len() == recs.len()
                && gs == gs.take(i) + suffix && forall|k: int|
                0 <= k < i ==> Ok::<CwlGroupV, ParseLogGroupErrorV>(#[trigger] gs[k])
                    == spec_group_from(recs[k])),
            Err(e) => spec_groups_from(recs.skip(i)) == Err::<Seq<CwlGroupV>, ParseLogGroupErrorV>(
                e,
            ),
        },
    decreases i,
{
    if i == 0 {
        assert(recs.skip(0) =~= recs);
        match spec_groups_from(recs) {
            Ok(gs) => {
                lemma_groups_from_len(recs);
                assert(gs == gs.take(0) + gs) by {
                    assert(gs.take(0) + gs =~= gs);
                }
            },
            Err(_) => {},
        }
    } else {
        assert(spec_group_from(recs[0]) is Ok);
        let t = recs.drop_first();
        assert(forall|k: int| 0 <= k < i - 1 ==> #[trigger] t[k] == recs[k + 1]);
        lemma_groups_from_skip(t, i - 1);
        assert(t.skip(i - 1) =~= recs.skip(i));
        match spec_groups_from(recs) {
            Ok(gs) => {
                let g0 = spec_group_from(recs[0])->Ok_0;
                let gst = spec_groups_from(t)->Ok_0;
                assert(gs == seq![g0] + gst);
                lemma_groups_from_len(recs);
                let suffix = spec_groups_from(recs.skip(i))->Ok_0;
                assert(gst == gst.take(i - 1) + suffix);
                assert(gs.take(i) =~= seq![g0] + gst.take(i - 1));
                assert(gs =~= gs.take(i) + suffix);
                assert(forall|k: int| 1 <= k < i ==> #[trigger] gs[k] == gst[k - 1]);
            },
            Err(_) => {},
        }
    }
}

/// A parsed page has one group per record.
proof fn lemma_groups_from_len(recs: Seq<LogGroupRecordV>)
    requires
        spec_groups_from(recs) is Ok,
    ensures
        spec_groups_from(recs)->Ok_0.len() == recs.len(),
    decreases recs.len(),
{
    if recs.len() > 0 {
        lemma_groups_from_len(recs.drop_first());
    }
}

/// Parses the records of a page, fail-fast on the first bad one; an absent
/// record list parses as an empty page.
pub fn cwl_groups_from(log_groups: Option<Vec<LogGroupRecord>>) -> (r: Result<
    Vec<CwlGroup>,
    ParseLogGroupError,
>)
    ensures
        match r {
            Ok(gs) => spec_groups_from(records_view(log_groups)) matches Ok(vs) && gs@.map_values(
                |g: CwlGroup| g@,
            ) == vs,
            Err(e) => spec_groups_from(records_view(log_groups)) == Err::<
                Seq<CwlGroupV>,
                ParseLogGroupErrorV,
            >(e@),
        },
{
    let mut records = match log_groups {
        Some(v) => v,
        None => Vec::new(),
    };
    let ghost recs = records@.map_values(|r: LogGroupRecord| r@);
    let n = records.len();
    proof {
        if log_groups is None {
            assert(recs =~= records_view(log_groups));
        }
        assert(recs == records_view(log_groups));
        assert(recs.len() == n);
        assert(recs.skip(0) =~= recs);
    }
    let mut out: Vec<CwlGroup> = Vec::new();
    let mut i: usize = 0;
    while records.len() > 0
        invariant
            0 <= i,
            recs.len() <= usize::MAX,
            recs == records_view(log_groups),
            i + records@.len() == recs.len(),
            records@.map_values(|r: LogGroupRecord| r@) == recs.skip(i as int),
            out@.len() == i,
            forall|k: int| 0 <= k < i ==> spec_group_from(#[trigger] recs[k]) is Ok,
            forall|k: int|
                0 <= k < i ==> Ok::<CwlGroupV, ParseLogGroupErrorV>(#[trigger] out@[k]@)
                    == spec_group_from(recs[k]),
        decreases records@.len(),
    {
        let ghost old_records = records@;
        let rec = records.remove(0);
        proof {
            assert(rec@ == old_records.map_values(|r: LogGroupRecord| r@)[0]);
            assert(rec@ == recs[i as int]);
            assert(records@ =~= old_records.drop_first());
            assert forall|k: int| 0 <= k < records@.len() implies #[trigger] records@[k]@
                == recs.skip(i + 1)[k] by {
                assert(records@[k] == old_records[k + 1]);
                assert(old_records.map_values(|r: LogGroupRecord| r@)[k + 1] == recs.skip(
                    i as int,
                )[k + 1]);
                assert(recs.skip(i as int)[k + 1] == recs[i + 1 + k]);
                assert(recs.skip(i + 1)[k] == recs[i + 1 + k]);
            }
            assert(records@.map_values(|r: LogGroupRecord| r@) =~= recs.skip(i + 1));
        }
        match CwlGroup::try_from(rec) {
            Ok(g) => {
                out.push(g);
                i = i + 1;
            },
            Err(e) => {
                proof {
                    lemma_groups_from_skip(recs, i as int);
                    assert(recs.skip(i as int)[0] == recs[i as int]);
                    assert(spec_groups_from(recs.skip(i as int)) == Err::<
                        Seq<CwlGroupV>,
                        ParseLogGroupErrorV,
                    >(e@));
                }
                return Err(e);
            },
        }
    }
    proof {
        lemma_groups_from_skip(recs, recs.len() as int);
        assert(recs.skip(recs.len() as int) =~= Seq::<LogGroupRecordV>::empty());
        match spec_groups_from(recs) {
            Ok(gs) => {
                assert(out@.map_values(|g: CwlGroup| g@) =~= gs);
            },
            Err(_) => {
                assert(false);
            },
        }
    }
    Ok(out)
}

/// The views of a page's records; an absent list is an empty page.
pub open spec fn records_view(log_groups: Option<Vec<LogGroupRecord>>) -> Seq<LogGroupRecordV> {
    match log_groups {
        Some(v) => v@.map_values(|r: LogGroupRecord| r@),
        None => Seq::empty(),
    }
}

/// The view of an optional string.
pub open spec fn token_view(t: Option<String>) -> Option<Seq<char>> {
    match t {
        Some(ref s) => Some(s@),
        None => None,
    }
}

/// The pagination cursor over the remote group listing.
///
/// `Ready` and `Exhausted` are the two states: while ready, `begin_next`
/// hands out the one page request to make; once a page without a
/// continuation token has been committed, the cursor is exhausted and
/// `begin_next` asks for no more fetches.
pub struct GroupCursor {
    prefix: Option<String>,
    last_token: Option<String>,
    next_token: Option<String>,
    has_next: bool,
}

/// Mathematical view of a cursor.
pub struct GroupCursorV {
    pub prefix: Option<Seq<char>>,
    pub last_token: Option<Seq<char>>,
    pub next_token: Option<Seq<char>>,
    pub has_next: bool,
}

impl View for GroupCursor {
    type V = GroupCursorV;

    closed spec fn view(&self) -> GroupCursorV {
        GroupCursorV {
            prefix: token_view(self.prefix),
            last_token: token_view(self.last_token),
            next_token: token_view(self.next_token),
            has_next: self.has_next,
        }
    }
}

/// What committing a page does to a cursor: the page's token becomes the
/// continuation, and the cursor stays ready exactly when there is one.
pub open spec fn spec_commit_page(c: GroupCursorV, page_token: Option<Seq<char>>) -> GroupCursorV {
    GroupCursorV {
        prefix: c.prefix,
        last_token: c.next_token,
        next_token: page_token,
        has_next: page_token is Some,
    }
}

impl GroupCursor {
    /// A fresh cursor over the listing filtered by the request's prefix.
    pub fn new(request: GroupsRequest) -> (r: GroupCursor)
        ensures
            r@.prefix == request@.log_group_name_prefix,
            r@.last_token is None,
            r@.next_token is None,
            r@.has_next,
    {
        GroupCursor {
            prefix: request.log_group_name_prefix,
            last_token: None,
            next_token: None,
            has_next: true,
        }
    }

    /// The page request to make next: nothing when the cursor is exhausted
    /// (so an exhausted cursor causes no remote call), otherwise the prefix
    /// together with the current continuation token.
    pub fn begin_next(&self) -> (r: Option<GroupsRequest>)
        ensures
            self@.has_next <==> r is Some,
            match r {
                Some(req) => req@.log_group_name_prefix == self@.prefix && req@.next_token
                    == self@.next_token,
                None => true,
            },
    {
        if self.has_next {
            Some(
                GroupsRequest {
                    log_group_name_prefix: clone_opt(&self.prefix),
                    next_token: clone_opt(&self.next_token),
                },
            )
        } else {
            None
        }
    }

    /// Commits a fetched page: parses its records fail-fast, and only on
    /// full success advances the token state; a parse failure leaves the
    /// cursor unchanged.
    pub fn finish_next(&mut self, page: GroupsPage) -> (r: Result<Vec<CwlGroup>, ParseLogGroupError>)
        ensures
            match r {
                Ok(gs) => {
                    &&& spec_groups_from(records_view(page.log_groups)) matches Ok(vs)
                        && gs@.map_values(|g: CwlGroup| g@) == vs
                    &&& final(self)@ == spec_commit_page(old(self)@, token_view(page.next_token))
                },
                Err(e) => {
                    &&& spec_groups_from(records_view(page.log_groups)) == Err::<
                        Seq<CwlGroupV>,
                        ParseLogGroupErrorV,
                    >(e@)
                    &&& final(self)@ == old(self)@
                },
            },
    {
        let groups = match cwl_groups_from(page.log_groups) {
            Ok(gs) => gs,
            Err(e) => {
                return Err(e);
            },
        };
        let token = page.next_token;
        self.has_next = token.is_some();
        self.last_token = clone_opt(&self.next_token);
        self.next_token = token;
        Ok(groups)
    }

    /// The request that re-fetches the current page, token state untouched.
    pub fn refresh_request(&self) -> (r: GroupsRequest)
        ensures
            r@.log_group_name_prefix == self@.prefix,
            r@.next_token == self@.last_token,
    {
        GroupsRequest {
            log_group_name_prefix: clone_opt(&self.prefix),
            next_token: clone_opt(&self.last_token),
        }
    }

    /// Parses a re-fetched page of the current request without touching the
    /// cursor.
    pub fn refresh_finish(&self, page: GroupsPage) -> (r: Result<Vec<CwlGroup>, ParseLogGroupError>)
        ensures
            match r {
                Ok(gs) => spec_groups_from(records_view(page.log_groups)) matches Ok(vs)
                    && gs@.map_values(|g: CwlGroup| g@) == vs,
                Err(e) => spec_groups_from(records_view(page.log_groups)) == Err::<
                    Seq<CwlGroupV>,
                    ParseLogGroupErrorV,
                >(e@),
            },
    {
        cwl_groups_from(page.log_groups)
    }
}

/// A copy of an optional string with the same view.
fn clone_opt(s: &Option<String>) -> (r: Option<String>)
    ensures
        token_view(r) == token_view(*s),
{
    match s {
        Some(x) => Some(x.clone()),
        None => None,
    }
}

/// Law: once a page without a continuation token is committed, the cursor is
/// exhausted, and an exhausted cursor asks for no further fetch; a fetch
/// that fails never reaches the commit, so it leaves the cursor unchanged by
/// construction, and `finish_next` itself commits nothing on a parse error.
pub proof fn lemma_exhaustion_idempotent(c: GroupCursorV, page_token: Option<Seq<char>>)
    ensures
        page_token is None ==> !spec_commit_page(c, page_token).has_next,
        !spec_commit_page(c, page_token).has_next ==> spec_commit_page(
            c,
            page_token,
        ).next_token is None,
{
}

} // verus!
