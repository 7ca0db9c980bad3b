//! Guild channels and the rewriting of their permission overwrites that shows a voice channel
//! to everyone or hides it again.
use vstd::prelude::*;
use crate::permissions::{
    has_flag, spec_is_staff, speak_bits, view_channel_bits, everyone_role_of, MemberInfo,
    PermissionOverwrite, PermissionOverwriteKind, SPEAK_BIT, VIEW_CHANNEL_BIT,
};

verus! {

/// What the logic reads of a guild channel.
#[derive(Clone, Debug)]
pub struct ChannelInfo {
    pub id: u64,
    pub guild_id: u64,
    pub name: String,
    pub permission_overwrites: Vec<PermissionOverwrite>,
}

/// The two rewrites of a channel's overwrites.
#[derive(Clone, Copy, Debug, PartialEq, Eq, Structural)]
pub enum OverwriteEdit {
    /// Lift the denial of the requested permissions (`deny &= !allow`).
    Show,
    /// Deny the requested permissions (`deny |= deny`, `allow &= !deny`).
    Hide,
}

// ---------------------------------------------------------------------------------------------
// Positions in a list of overwrites
// ---------------------------------------------------------------------------------------------

/// Some overwrite in `s` applies to `kind`.
pub open spec fn has_kind(s: Seq<PermissionOverwrite>, kind: PermissionOverwriteKind) -> bool {
    exists|i: int| 0 <= i < s.len() && #[trigger] s[i].kind == kind
}

/// `i` is the position of the first overwrite in `s` that applies to `kind`.
pub open spec fn is_first_of_kind(s: Seq<PermissionOverwrite>, kind: PermissionOverwriteKind, i: int) -> bool {
    &&& 0 <= i < s.len()
    &&& s[i].kind == kind
    &&& forall|j: int| 0 <= j < i ==> #[trigger] s[j].kind != kind
}

/// The position of the first overwrite in `s` that applies to `kind` (meaningful where
/// `has_kind(s, kind)`).
pub open spec fn first_of_kind(s: Seq<PermissionOverwrite>, kind: PermissionOverwriteKind) -> int {
    choose|i: int| is_first_of_kind(s, kind, i)
}

/// The overwrite that Discord applies to `kind` in a channel: the first one listed for it.
pub open spec fn overwrite_for(s: Seq<PermissionOverwrite>, kind: PermissionOverwriteKind) -> Option<PermissionOverwrite> {
    if has_kind(s, kind) {
        Some(s[first_of_kind(s, kind)])
    } else {
        None
    }
}

proof fn lemma_first_exists(s: Seq<PermissionOverwrite>, kind: PermissionOverwriteKind, i: int)
    requires
        0 <= i < s.len(),
        s[i].kind == kind,
    ensures
        exists|k: int| is_first_of_kind(s, kind, k),
    decreases i,
{
    if exists|j: int| 0 <= j < i && #[trigger] s[j].kind == kind {
        let j: int = choose|j: int| 0 <= j < i && #[trigger] s[j].kind == kind;
        lemma_first_exists(s, kind, j);
    } else {
        assert(is_first_of_kind(s, kind, i));
    }
}

/// Where some overwrite applies to `kind`, `first_of_kind` is the first such position.
pub proof fn lemma_first_of_kind(s: Seq<PermissionOverwrite>, kind: PermissionOverwriteKind)
    requires
        has_kind(s, kind),
    ensures
        is_first_of_kind(s, kind, first_of_kind(s, kind)),
{
    let i: int = choose|i: int| 0 <= i < s.len() && #[trigger] s[i].kind == kind;
    lemma_first_exists(s, kind, i);
}

/// The first position of a kind is unique.
pub proof fn lemma_first_unique(s: Seq<PermissionOverwrite>, kind: PermissionOverwriteKind, i: int)
    requires
        is_first_of_kind(s, kind, i),
    ensures
        has_kind(s, kind),
        first_of_kind(s, kind) == i,
{
    assert(s[i].kind == kind);
    lemma_first_of_kind(s, kind);
    let f: int = first_of_kind(s, kind);
    if f < i {
        assert(s[f].kind != kind);
    } else if f > i {
        assert(s[i].kind != kind);
    }
}

// ---------------------------------------------------------------------------------------------
// The rewrite
// ---------------------------------------------------------------------------------------------

/// An overwrite `p` that a requested overwrite `request` for the same kind was merged into.
pub open spec fn merged(edit: OverwriteEdit, p: PermissionOverwrite, request: PermissionOverwrite) -> PermissionOverwrite {
    match edit {
        OverwriteEdit::Show => PermissionOverwrite { deny: p.deny & !request.allow, ..p },
        OverwriteEdit::Hide => PermissionOverwrite {
            deny: p.deny | request.deny,
            allow: p.allow & !request.deny,
            ..p
        },
    }
}

/// A requested overwrite that no existing overwrite took up, as it is appended: showing
/// never allows a permission outright, so its allow bits are cleared.
pub open spec fn appended(edit: OverwriteEdit, request: PermissionOverwrite) -> PermissionOverwrite {
    match edit {
        OverwriteEdit::Show => PermissionOverwrite { allow: 0, ..request },
        OverwriteEdit::Hide => request,
    }
}

/// Walks `ps` in order; each overwrite takes up the first still pending request of its kind.
/// Gives the rewritten overwrites and the requests that are still pending at the end.
pub open spec fn merge_run(edit: OverwriteEdit, ps: Seq<PermissionOverwrite>, requests: Seq<PermissionOverwrite>)
    -> (Seq<PermissionOverwrite>, Seq<PermissionOverwrite>)
    decreases ps.len(),
{
    if ps.len() == 0 {
        (Seq::empty(), requests)
    } else {
        let (out, pending) = merge_run(edit, ps.drop_last(), requests);
        let p = ps.last();
        if has_kind(pending, p.kind) {
            let n: int = first_of_kind(pending, p.kind);
            (out.push(merged(edit, p, pending[n])), pending.remove(n))
        } else {
            (out.push(p), pending)
        }
    }
}

/// The overwrites after merging `requests` into `ps`: the rewritten list, then the requests
/// that no overwrite took up.
pub open spec fn merge_overwrites(edit: OverwriteEdit, ps: Seq<PermissionOverwrite>, requests: Seq<PermissionOverwrite>)
    -> Seq<PermissionOverwrite>
{
    let (out, pending) = merge_run(edit, ps, requests);
    out + pending.map_values(|r: PermissionOverwrite| appended(edit, r))
}

/// `p` already denies everything that one of the requests for its kind would allow.
pub open spec fn denies_requested(p: PermissionOverwrite, requests: Seq<PermissionOverwrite>) -> bool {
    exists|j: int| 0 <= j < requests.len() && #[trigger] requests[j].kind == p.kind
        && p.deny & requests[j].allow == requests[j].allow
}

/// How many overwrites in `ps` already deny what a request for their kind would allow.
pub open spec fn count_denying(ps: Seq<PermissionOverwrite>, requests: Seq<PermissionOverwrite>) -> nat
    decreases ps.len(),
{
    if ps.len() == 0 {
        0
    } else {
        count_denying(ps.drop_last(), requests) + (if denies_requested(ps.last(), requests) { 1nat } else { 0nat })
    }
}

/// The position of the first overwrite in `requests` for `kind`, if there is one.
fn find_kind(requests: &Vec<PermissionOverwrite>, kind: PermissionOverwriteKind) -> (found: Option<usize>)
    ensures
        match found {
            Some(n) => has_kind(requests@, kind) && n == first_of_kind(requests@, kind) && n < requests@.len(),
            None => !has_kind(requests@, kind),
        },
{
    let mut i: usize = 0;
    while i < requests.len()
        invariant
            i <= requests.len(),
            forall|j: int| 0 <= j < i ==> #[trigger] requests@[j].kind != kind,
        decreases requests.len() - i,
    {
        if requests[i].kind == kind {
            proof {
                lemma_first_unique(requests@, kind, i as int);
            }
            return Some(i);
        }
        i += 1;
    }
    None
}

/// The overwrite `p` with the request merged into it.
fn merge_one(edit: OverwriteEdit, p: PermissionOverwrite, request: PermissionOverwrite) -> (m: PermissionOverwrite)
    ensures
        m == merged(edit, p, request),
{
    match edit {
        OverwriteEdit::Show => PermissionOverwrite { allow: p.allow, deny: p.deny & !request.allow, kind: p.kind },
        OverwriteEdit::Hide => PermissionOverwrite {
            allow: p.allow & !request.deny,
            deny: p.deny | request.deny,
            kind: p.kind,
        },
    }
}

/// Merges requested overwrites into a channel's overwrites: walking the overwrites in order,
/// each one takes up (and consumes) the first pending request for its kind; requests that
/// nothing took up are appended at the end.
pub fn merge_permission_overwrites(
    overwrites: &Vec<PermissionOverwrite>,
    requests: Vec<PermissionOverwrite>,
    edit: OverwriteEdit,
) -> (result: Vec<PermissionOverwrite>)
    ensures
        result@ == merge_overwrites(edit, overwrites@, requests@),
{
    let mut pending = requests;
    let mut out: Vec<PermissionOverwrite> = Vec::new();
    let mut i: usize = 0;
    while i < overwrites.len()
        invariant
            i <= overwrites.len(),
            (out@, pending@) == merge_run(edit, overwrites@.take(i as int), requests@),
        decreases overwrites.len() - i,
    {
        let p = overwrites[i];
        proof {
            assert(overwrites@.take(i + 1).drop_last() =~= overwrites@.take(i as int));
            assert(overwrites@.take(i + 1).last() == p);
        }
        match find_kind(&pending, p.kind) {
            Some(n) => {
                let request = pending.remove(n);
                out.push(merge_one(edit, p, request));
            },
            None => {
                out.push(p);
            },
        }
        i += 1;
    }
    proof {
        assert(overwrites@.take(overwrites@.len() as int) =~= overwrites@);
    }
    let ghost run_out = out@;
    let ghost pending_all = pending@;
    let mut k: usize = 0;
    while k < pending.len()
        invariant
            k <= pending.len(),
            pending@ == pending_all,
            out@ =~= run_out + pending_all.take(k as int).map_values(|r: PermissionOverwrite| appended(edit, r)),
        decreases pending.len() - k,
    {
        let r = pending[k];
        let a = match edit {
            OverwriteEdit::Show => PermissionOverwrite { allow: 0, deny: r.deny, kind: r.kind },
            OverwriteEdit::Hide => r,
        };
        out.push(a);
        proof {
            assert(pending_all.take(k + 1) =~= pending_all.take(k as int).push(r));
        }
        k += 1;
    }
    proof {
        assert(pending_all.take(pending_all.len() as int) =~= pending_all);
    }
    out
}

/// Counts the overwrites that already deny everything some request for their kind would allow.
pub fn count_denying_requested(overwrites: &Vec<PermissionOverwrite>, requests: &Vec<PermissionOverwrite>) -> (count: usize)
    ensures
        count == count_denying(overwrites@, requests@),
        (forall|i: int| 0 <= i < overwrites@.len() ==> #[trigger] overwrites@[i].deny == 0)
            && (forall|j: int| 0 <= j < requests@.len() ==> #[trigger] requests@[j].allow != 0) ==> count == 0,
{
    proof {
        if (forall|i: int| 0 <= i < overwrites@.len() ==> #[trigger] overwrites@[i].deny == 0)
            && (forall|j: int| 0 <= j < requests@.len() ==> #[trigger] requests@[j].allow != 0) {
            law_nothing_denied_counts_zero(overwrites@, requests@);
        }
    }
    let mut count: usize = 0;
    let mut i: usize = 0;
    while i < overwrites.len()
        invariant
            i <= overwrites.len(),
            count == count_denying(overwrites@.take(i as int), requests@),
            count <= i,
        decreases overwrites.len() - i,
    {
        let p = overwrites[i];
        let mut any = false;
        let mut j: usize = 0;
        while j < requests.len()
            invariant
                j <= requests.len(),
                any == exists|m: int| 0 <= m < j && #[trigger] requests@[m].kind == p.kind
                    && p.deny & requests@[m].allow == requests@[m].allow,
            decreases requests.len() - j,
        {
            let r = requests[j];
            if r.kind == p.kind && p.deny & r.allow == r.allow {
                any = true;
            }
            j += 1;
        }
        proof {
            assert(overwrites@.take(i + 1).drop_last() =~= overwrites@.take(i as int));
            assert(overwrites@.take(i + 1).last() == p);
        }
        if any {
            count += 1;
        }
        i += 1;
    }
    proof {
        assert(overwrites@.take(overwrites@.len() as int) =~= overwrites@);
    }
    count
}

// ---------------------------------------------------------------------------------------------
// One request: the rewrite the bot makes
// ---------------------------------------------------------------------------------------------

/// The overwrites after merging a single request: the first overwrite for its kind is merged
/// with it, or, where there is none, the request is appended.
pub open spec fn merge_single(edit: OverwriteEdit, ps: Seq<PermissionOverwrite>, request: PermissionOverwrite)
    -> Seq<PermissionOverwrite>
{
    if has_kind(ps, request.kind) {
        let f: int = first_of_kind(ps, request.kind);
        ps.update(f, merged(edit, ps[f], request))
    } else {
        ps.push(appended(edit, request))
    }
}

proof fn lemma_merge_run_single(edit: OverwriteEdit, ps: Seq<PermissionOverwrite>, request: PermissionOverwrite)
    ensures
        merge_run(edit, ps, seq![request]) == (if has_kind(ps, request.kind) {
            let f: int = first_of_kind(ps, request.kind);
            (ps.update(f, merged(edit, ps[f], request)), Seq::<PermissionOverwrite>::empty())
        } else {
            (ps, seq![request])
        }),
    decreases ps.len(),
{
    let k: PermissionOverwriteKind = request.kind;
    if ps.len() == 0 {
        assert(!has_kind(ps, k));
    } else {
        let q = ps.drop_last();
        let p = ps.last();
        lemma_merge_run_single(edit, q, request);
        if has_kind(q, k) {
            lemma_first_of_kind(q, k);
            let fq: int = first_of_kind(q, k);
            assert forall|j: int| 0 <= j < fq implies #[trigger] ps[j].kind != k by {
                assert(q[j] == ps[j]);
            }
            assert(is_first_of_kind(ps, k, fq));
            lemma_first_unique(ps, k, fq);
            let pending = Seq::<PermissionOverwrite>::empty();
            assert(!has_kind(pending, p.kind));
            assert(q.update(fq, merged(edit, q[fq], request)).push(p) =~= ps.update(fq, merged(edit, ps[fq], request)));
        } else {
            let pending = seq![request];
            if p.kind == k {
                assert(is_first_of_kind(pending, k, 0));
                lemma_first_unique(pending, k, 0);
                assert forall|j: int| 0 <= j < ps.len() - 1 implies #[trigger] ps[j].kind != k by {
                    assert(q[j] == ps[j]);
                }
                assert(is_first_of_kind(ps, k, ps.len() - 1));
                lemma_first_unique(ps, k, ps.len() - 1);
                assert(pending.remove(0) =~= Seq::<PermissionOverwrite>::empty());
                assert(q.push(merged(edit, p, request)) =~= ps.update(ps.len() - 1, merged(edit, ps[ps.len() - 1], request)));
            } else {
                assert(!has_kind(pending, p.kind));
                assert(q.push(p) =~= ps);
                assert forall|i: int| 0 <= i < ps.len() implies #[trigger] ps[i].kind != k by {
                    if i < ps.len() - 1 {
                        assert(q[i] == ps[i]);
                    }
                }
            }
        }
    }
}

/// With a single request, the general merge is `merge_single`.
pub proof fn lemma_merge_single(edit: OverwriteEdit, ps: Seq<PermissionOverwrite>, request: PermissionOverwrite)
    ensures
        merge_overwrites(edit, ps, seq![request]) == merge_single(edit, ps, request),
{
    lemma_merge_run_single(edit, ps, request);
    if has_kind(ps, request.kind) {
        let f: int = first_of_kind(ps, request.kind);
        let out = ps.update(f, merged(edit, ps[f], request));
        assert(out + Seq::<PermissionOverwrite>::empty().map_values(|r: PermissionOverwrite| appended(edit, r)) =~= out);
    } else {
        assert(ps + seq![request].map_values(|r: PermissionOverwrite| appended(edit, r)) =~= ps.push(appended(edit, request)));
    }
}

/// The @everyone role of a guild, as an overwrite target.
pub open spec fn everyone(guild_id: u64) -> PermissionOverwriteKind {
    PermissionOverwriteKind::Role(guild_id)
}

/// The request that shows a channel: lift a denial of "View Channel" for @everyone.
pub open spec fn show_request(guild_id: u64) -> PermissionOverwrite {
    PermissionOverwrite { allow: VIEW_CHANNEL_BIT, deny: 0, kind: everyone(guild_id) }
}

/// The request that hides a channel: deny "View Channel" to @everyone.
pub open spec fn hide_request(guild_id: u64) -> PermissionOverwrite {
    PermissionOverwrite { allow: 0, deny: VIEW_CHANNEL_BIT, kind: everyone(guild_id) }
}

/// The overwrites of a channel once it is shown.
pub open spec fn shown(ps: Seq<PermissionOverwrite>, guild_id: u64) -> Seq<PermissionOverwrite> {
    merge_single(OverwriteEdit::Show, ps, show_request(guild_id))
}

/// The overwrites of a channel once it is hidden.
pub open spec fn hidden(ps: Seq<PermissionOverwrite>, guild_id: u64) -> Seq<PermissionOverwrite> {
    merge_single(OverwriteEdit::Hide, ps, hide_request(guild_id))
}

/// How many overwrites for @everyone deny "View Channel".
pub open spec fn view_denials(ps: Seq<PermissionOverwrite>, guild_id: u64) -> nat
    decreases ps.len(),
{
    if ps.len() == 0 {
        0
    } else {
        let p = ps.last();
        view_denials(ps.drop_last(), guild_id)
            + (if p.kind == everyone(guild_id) && has_flag(p.deny, VIEW_CHANNEL_BIT) { 1nat } else { 0nat })
    }
}

/// With the one request that shows a channel, the overwrites counted as already denying it
/// are the @everyone overwrites that deny "View Channel".
pub proof fn law_view_denials(ps: Seq<PermissionOverwrite>, guild_id: u64)
    ensures
        count_denying(ps, seq![show_request(guild_id)]) == view_denials(ps, guild_id),
    decreases ps.len(),
{
    if ps.len() > 0 {
        law_view_denials(ps.drop_last(), guild_id);
        let p = ps.last();
        let rs = seq![show_request(guild_id)];
        if denies_requested(p, rs) {
            let j: int = choose|j: int| 0 <= j < rs.len() && #[trigger] rs[j].kind == p.kind
                && p.deny & rs[j].allow == rs[j].allow;
            assert(j == 0);
        }
        if p.kind == everyone(guild_id) && has_flag(p.deny, VIEW_CHANNEL_BIT) {
            assert(rs[0].kind == p.kind);
        }
    }
}

/// Whether @everyone may speak in a channel: the overwrite for @everyone, where there is one,
/// must not deny "Speak".
pub open spec fn everyone_may_speak(ps: Seq<PermissionOverwrite>, guild_id: u64) -> bool {
    match overwrite_for(ps, everyone(guild_id)) {
        Some(p) => !has_flag(p.deny, SPEAK_BIT),
        None => true,
    }
}

impl ChannelInfo {
    /// The first overwrite of this channel for `kind`, if any.
    pub fn permission_overwrite_for(&self, kind: PermissionOverwriteKind) -> (found: Option<PermissionOverwrite>)
        ensures
            found == overwrite_for(self.permission_overwrites@, kind),
    {
        match find_kind(&self.permission_overwrites, kind) {
            Some(n) => Some(self.permission_overwrites[n]),
            None => None,
        }
    }

    /// Whether @everyone may speak in this channel.
    pub fn everyone_can_speak(&self) -> (may: bool)
        requires
            self.guild_id != 0,
        ensures
            may == everyone_may_speak(self.permission_overwrites@, self.guild_id),
    {
        self.everyone_of_guild_can_speak(self.guild_id)
    }

    /// Whether the @everyone role of the guild `guild_id` may speak in this channel.
    pub fn everyone_of_guild_can_speak(&self, guild_id: u64) -> (may: bool)
        requires
            guild_id != 0,
        ensures
            may == everyone_may_speak(self.permission_overwrites@, guild_id),
    {
        let everyone_role: u64 = everyone_role_of(guild_id);
        match self.permission_overwrite_for(PermissionOverwriteKind::Role(everyone_role)) {
            Some(p) => {
                let speak: u64 = speak_bits();
                !(p.deny & speak == speak)
            },
            None => true,
        }
    }

    /// Shows the channel to everyone: lifts the denial of "View Channel" in the first overwrite
    /// for @everyone, or adds an empty overwrite for @everyone where there is none. Where
    /// exactly one overwrite for @everyone denies "View Channel", nothing is done and `false`
    /// comes back; the caller sends the new overwrites to Discord where `true` comes back.
    pub fn make_visible(&mut self) -> (changed: bool)
        requires
            old(self).guild_id != 0,
        ensures
            changed == (view_denials(old(self).permission_overwrites@, old(self).guild_id) != 1),
            (forall|i: int| 0 <= i < old(self).permission_overwrites@.len()
                ==> #[trigger] old(self).permission_overwrites@[i].deny & 1024u64 != 1024u64) ==> changed,
            changed ==> final(self).permission_overwrites@ == shown(old(self).permission_overwrites@, old(self).guild_id),
            !changed ==> final(self).permission_overwrites@ == old(self).permission_overwrites@,
            final(self).id == old(self).id,
            final(self).guild_id == old(self).guild_id,
            final(self).name == old(self).name,
    {
        let everyone_role: u64 = everyone_role_of(self.guild_id);
        let mut requests: Vec<PermissionOverwrite> = Vec::new();
        requests.push(PermissionOverwrite {
            allow: view_channel_bits(),
            deny: 0,
            kind: PermissionOverwriteKind::Role(everyone_role),
        });
        proof {
            assert(requests@ =~= seq![show_request(self.guild_id)]);
            law_view_denials(self.permission_overwrites@, self.guild_id);
            lemma_merge_single(OverwriteEdit::Show, self.permission_overwrites@, show_request(self.guild_id));
        }
        proof {
            law_no_view_denial_counts_zero(self.permission_overwrites@, self.guild_id);
        }
        let already: usize = count_denying_requested(&self.permission_overwrites, &requests);
        if already == requests.len() {
            return false;
        }
        let updated = merge_permission_overwrites(&self.permission_overwrites, requests, OverwriteEdit::Show);
        self.permission_overwrites = updated;
        true
    }

    /// Hides the channel from everyone: the first overwrite for @everyone denies "View Channel"
    /// (and stops allowing it), or an overwrite for @everyone that denies it is added. The
    /// caller sends the new overwrites to Discord.
    pub fn make_invisible(&mut self)
        requires
            old(self).guild_id != 0,
        ensures
            final(self).permission_overwrites@ == hidden(old(self).permission_overwrites@, old(self).guild_id),
            final(self).id == old(self).id,
            final(self).guild_id == old(self).guild_id,
            final(self).name == old(self).name,
    {
        let everyone_role: u64 = everyone_role_of(self.guild_id);
        let mut requests: Vec<PermissionOverwrite> = Vec::new();
        requests.push(PermissionOverwrite {
            allow: 0,
            deny: view_channel_bits(),
            kind: PermissionOverwriteKind::Role(everyone_role),
        });
        proof {
            assert(requests@ =~= seq![hide_request(self.guild_id)]);
            lemma_merge_single(OverwriteEdit::Hide, self.permission_overwrites@, hide_request(self.guild_id));
        }
        let updated = merge_permission_overwrites(&self.permission_overwrites, requests, OverwriteEdit::Hide);
        self.permission_overwrites = updated;
    }

    /// The first member connected to this channel that counts as staff for it, by position in
    /// `members` (the channel's members as the cache lists them, each with its permissions in
    /// this channel as `MemberInfo::is_staff` takes them).
    pub fn get_connected_staff_member(&self, members: &Vec<(MemberInfo, Option<u64>)>) -> (found: Option<usize>)
        ensures
            match found {
                Some(i) => i < members.len() && spec_is_staff(members@[i as int].0, members@[i as int].1)
                    && forall|j: int| 0 <= j < i ==> !spec_is_staff(#[trigger] members@[j].0, members@[j].1),
                None => forall|j: int| 0 <= j < members.len() ==> !spec_is_staff(#[trigger] members@[j].0, members@[j].1),
            },
    {
        let mut i: usize = 0;
        while i < members.len()
            invariant
                i <= members.len(),
                forall|j: int| 0 <= j < i ==> !spec_is_staff(#[trigger] members@[j].0, members@[j].1),
            decreases members.len() - i,
        {
            if members[i].0.is_staff(members[i].1) {
                return Some(i);
            }
            i += 1;
        }
        None
    }
}

// ---------------------------------------------------------------------------------------------
// Laws of showing and hiding
// ---------------------------------------------------------------------------------------------

proof fn lemma_first_after_update(ps: Seq<PermissionOverwrite>, k: PermissionOverwriteKind, x: PermissionOverwrite)
    requires
        has_kind(ps, k),
        x.kind == k,
    ensures
        has_kind(ps.update(first_of_kind(ps, k), x), k),
        first_of_kind(ps.update(first_of_kind(ps, k), x), k) == first_of_kind(ps, k),
{
    lemma_first_of_kind(ps, k);
    let f: int = first_of_kind(ps, k);
    let r = ps.update(f, x);
    assert forall|j: int| 0 <= j < f implies #[trigger] r[j].kind != k by {
        assert(r[j] == ps[j]);
    }
    assert(is_first_of_kind(r, k, f));
    lemma_first_unique(r, k, f);
}

proof fn lemma_first_after_push(ps: Seq<PermissionOverwrite>, k: PermissionOverwriteKind, x: PermissionOverwrite)
    requires
        !has_kind(ps, k),
        x.kind == k,
    ensures
        has_kind(ps.push(x), k),
        first_of_kind(ps.push(x), k) == ps.len(),
{
    let r = ps.push(x);
    assert forall|j: int| 0 <= j < ps.len() implies #[trigger] r[j].kind != k by {
        assert(r[j] == ps[j]);
    }
    assert(is_first_of_kind(r, k, ps.len() as int));
    lemma_first_unique(r, k, ps.len() as int);
}

/// After merging a request, the request's kind has an overwrite, at the position where the
/// first one was before, or at the end where there was none.
pub proof fn lemma_merge_single_first(edit: OverwriteEdit, ps: Seq<PermissionOverwrite>, request: PermissionOverwrite)
    ensures
        has_kind(merge_single(edit, ps, request), request.kind),
        first_of_kind(merge_single(edit, ps, request), request.kind)
            == (if has_kind(ps, request.kind) { first_of_kind(ps, request.kind) } else { ps.len() as int }),
        has_kind(ps, request.kind) ==> merge_single(edit, ps, request)[first_of_kind(ps, request.kind)]
            == merged(edit, ps[first_of_kind(ps, request.kind)], request),
        !has_kind(ps, request.kind) ==> merge_single(edit, ps, request)[ps.len() as int] == appended(edit, request),
{
    let k: PermissionOverwriteKind = request.kind;
    if has_kind(ps, k) {
        lemma_first_of_kind(ps, k);
        let f: int = first_of_kind(ps, k);
        lemma_first_after_update(ps, k, merged(edit, ps[f], request));
    } else {
        lemma_first_after_push(ps, k, appended(edit, request));
    }
}

/// Merging one request changes at most the first overwrite for its kind, or appends one
/// overwrite; every other overwrite stays as it was, in its place.
pub proof fn law_merge_single_keeps_others(edit: OverwriteEdit, ps: Seq<PermissionOverwrite>, request: PermissionOverwrite)
    ensures
        merge_single(edit, ps, request).len() == ps.len() + (if has_kind(ps, request.kind) { 0int } else { 1int }),
        forall|i: int| 0 <= i < ps.len() && !(has_kind(ps, request.kind) && i == first_of_kind(ps, request.kind))
            ==> #[trigger] merge_single(edit, ps, request)[i] == ps[i],
{
    if has_kind(ps, request.kind) {
        lemma_first_of_kind(ps, request.kind);
    }
}

/// Once a channel is hidden, the overwrite for @everyone denies "View Channel" and does not
/// allow it.
pub proof fn law_hidden_denies_view(ps: Seq<PermissionOverwrite>, guild_id: u64)
    ensures
        overwrite_for(hidden(ps, guild_id), everyone(guild_id)) matches Some(p)
            && has_flag(p.deny, VIEW_CHANNEL_BIT) && p.allow & VIEW_CHANNEL_BIT == 0,
{
    let k = everyone(guild_id);
    lemma_merge_single_first(OverwriteEdit::Hide, ps, hide_request(guild_id));
    if has_kind(ps, k) {
        let p = ps[first_of_kind(ps, k)];
        let d: u64 = p.deny;
        let a: u64 = p.allow;
        assert((d | 1024u64) & 1024u64 == 1024u64) by (bit_vector);
        assert((a & !1024u64) & 1024u64 == 0u64) by (bit_vector);
    } else {
        assert(1024u64 & 1024u64 == 1024u64) by (bit_vector);
        assert(0u64 & 1024u64 == 0u64) by (bit_vector);
    }
}

/// Once a channel is shown, the overwrite for @everyone does not deny "View Channel".
pub proof fn law_shown_lifts_view_denial(ps: Seq<PermissionOverwrite>, guild_id: u64)
    ensures
        overwrite_for(shown(ps, guild_id), everyone(guild_id)) matches Some(p)
            && p.deny & VIEW_CHANNEL_BIT == 0,
{
    let k = everyone(guild_id);
    lemma_merge_single_first(OverwriteEdit::Show, ps, show_request(guild_id));
    if has_kind(ps, k) {
        let d: u64 = ps[first_of_kind(ps, k)].deny;
        assert((d & !1024u64) & 1024u64 == 0u64) by (bit_vector);
    } else {
        assert(0u64 & 1024u64 == 0u64) by (bit_vector);
    }
}

/// Hiding a hidden channel changes nothing.
pub proof fn law_hide_idempotent(ps: Seq<PermissionOverwrite>, guild_id: u64)
    ensures
        hidden(hidden(ps, guild_id), guild_id) == hidden(ps, guild_id),
{
    let k = everyone(guild_id);
    let h = hide_request(guild_id);
    let once = hidden(ps, guild_id);
    lemma_merge_single_first(OverwriteEdit::Hide, ps, h);
    lemma_first_of_kind(once, k);
    let f: int = first_of_kind(once, k);
    let p = once[f];
    let d: u64 = p.deny;
    let a: u64 = p.allow;
    assert((d | 1024u64) | 1024u64 == d | 1024u64) by (bit_vector);
    assert((a & !1024u64) & !1024u64 == a & !1024u64) by (bit_vector);
    if has_kind(ps, k) {
        lemma_first_of_kind(ps, k);
        let q = ps[first_of_kind(ps, k)];
        let d0: u64 = q.deny;
        let a0: u64 = q.allow;
        assert((d0 | 1024u64) | 1024u64 == d0 | 1024u64) by (bit_vector);
        assert((a0 & !1024u64) & !1024u64 == a0 & !1024u64) by (bit_vector);
        assert(merged(OverwriteEdit::Hide, p, h) == p);
    } else {
        assert(1024u64 | 1024u64 == 1024u64) by (bit_vector);
        assert(0u64 & !1024u64 == 0u64) by (bit_vector);
        assert(merged(OverwriteEdit::Hide, p, h) == p);
    }
    assert(once.update(f, merged(OverwriteEdit::Hide, once[f], h)) =~= once);
}

/// Showing a channel does not change whether @everyone may speak in it.
pub proof fn law_show_keeps_speak(ps: Seq<PermissionOverwrite>, guild_id: u64)
    ensures
        everyone_may_speak(shown(ps, guild_id), guild_id) == everyone_may_speak(ps, guild_id),
{
    let k = everyone(guild_id);
    lemma_merge_single_first(OverwriteEdit::Show, ps, show_request(guild_id));
    if has_kind(ps, k) {
        let d: u64 = ps[first_of_kind(ps, k)].deny;
        assert(((d & !1024u64) & 2097152u64 == 2097152u64) == (d & 2097152u64 == 2097152u64)) by (bit_vector);
    } else {
        assert(0u64 & 2097152u64 != 2097152u64) by (bit_vector);
    }
}

/// Hiding a channel does not change whether @everyone may speak in it.
pub proof fn law_hide_keeps_speak(ps: Seq<PermissionOverwrite>, guild_id: u64)
    ensures
        everyone_may_speak(hidden(ps, guild_id), guild_id) == everyone_may_speak(ps, guild_id),
{
    let k = everyone(guild_id);
    lemma_merge_single_first(OverwriteEdit::Hide, ps, hide_request(guild_id));
    if has_kind(ps, k) {
        let d: u64 = ps[first_of_kind(ps, k)].deny;
        assert(((d | 1024u64) & 2097152u64 == 2097152u64) == (d & 2097152u64 == 2097152u64)) by (bit_vector);
    } else {
        assert(1024u64 & 2097152u64 != 2097152u64) by (bit_vector);
    }
}

proof fn lemma_view_denials_none(s: Seq<PermissionOverwrite>, guild_id: u64)
    requires
        forall|i: int| 0 <= i < s.len() ==> #[trigger] s[i].kind != everyone(guild_id),
    ensures
        view_denials(s, guild_id) == 0,
    decreases s.len(),
{
    if s.len() > 0 {
        let q = s.drop_last();
        assert forall|i: int| 0 <= i < q.len() implies #[trigger] q[i].kind != everyone(guild_id) by {
            assert(q[i] == s[i]);
        }
        lemma_view_denials_none(q, guild_id);
    }
}

proof fn lemma_view_denials_one(s: Seq<PermissionOverwrite>, guild_id: u64, f: int)
    requires
        0 <= f < s.len(),
        s[f].kind == everyone(guild_id),
        has_flag(s[f].deny, VIEW_CHANNEL_BIT),
        forall|i: int| 0 <= i < s.len() && i != f ==> #[trigger] s[i].kind != everyone(guild_id),
    ensures
        view_denials(s, guild_id) == 1,
    decreases s.len(),
{
    let q = s.drop_last();
    if f == s.len() - 1 {
        assert forall|i: int| 0 <= i < q.len() implies #[trigger] q[i].kind != everyone(guild_id) by {
            assert(q[i] == s[i]);
        }
        lemma_view_denials_none(q, guild_id);
    } else {
        assert forall|i: int| 0 <= i < q.len() && i != f implies #[trigger] q[i].kind != everyone(guild_id) by {
            assert(q[i] == s[i]);
        }
        assert(q[f] == s[f]);
        lemma_view_denials_one(q, guild_id, f);
    }
}

/// On a channel with at most one overwrite for @everyone, hiding leaves exactly one overwrite
/// that denies "View Channel" to @everyone, so that `make_visible` then reports that there
/// is nothing to do.
pub proof fn law_hidden_counts_one_denial(ps: Seq<PermissionOverwrite>, guild_id: u64)
    requires
        forall|i: int, j: int| 0 <= i < ps.len() && 0 <= j < ps.len()
            && #[trigger] ps[i].kind == everyone(guild_id) && #[trigger] ps[j].kind == everyone(guild_id) ==> i == j,
    ensures
        view_denials(hidden(ps, guild_id), guild_id) == 1,
{
    let k = everyone(guild_id);
    let r = hidden(ps, guild_id);
    law_hidden_denies_view(ps, guild_id);
    lemma_merge_single_first(OverwriteEdit::Hide, ps, hide_request(guild_id));
    let f: int = first_of_kind(r, k);
    if has_kind(ps, k) {
        lemma_first_of_kind(ps, k);
        assert forall|i: int| 0 <= i < r.len() && i != f implies #[trigger] r[i].kind != k by {
            assert(r[i] == ps[i]);
            assert(ps[f].kind == k);
        }
    } else {
        assert forall|i: int| 0 <= i < r.len() && i != f implies #[trigger] r[i].kind != k by {
            assert(r[i] == ps[i]);
        }
    }
    lemma_view_denials_one(r, guild_id, f);
}

/// An overwrite that denies nothing is counted as already denying a request only where the
/// request allows nothing.
pub proof fn law_denying_nothing_meets_only_empty_requests(p: PermissionOverwrite, requests: Seq<PermissionOverwrite>)
    requires
        p.deny == 0,
        denies_requested(p, requests),
    ensures
        exists|j: int| 0 <= j < requests.len() && #[trigger] requests[j].kind == p.kind && requests[j].allow == 0,
{
    let j: int = choose|j: int| 0 <= j < requests.len() && #[trigger] requests[j].kind == p.kind
        && p.deny & requests[j].allow == requests[j].allow;
    let a: u64 = requests[j].allow;
    assert(0u64 & a == a ==> a == 0u64) by (bit_vector);
}

/// Where no overwrite denies anything and every request allows something, no overwrite is
/// counted as already denying a request.
pub proof fn law_nothing_denied_counts_zero(ps: Seq<PermissionOverwrite>, requests: Seq<PermissionOverwrite>)
    requires
        forall|i: int| 0 <= i < ps.len() ==> #[trigger] ps[i].deny == 0,
        forall|j: int| 0 <= j < requests.len() ==> #[trigger] requests[j].allow != 0,
    ensures
        count_denying(ps, requests) == 0,
    decreases ps.len(),
{
    if ps.len() > 0 {
        let q = ps.drop_last();
        assert forall|i: int| 0 <= i < q.len() implies #[trigger] q[i].deny == 0 by {
            assert(q[i] == ps[i]);
        }
        law_nothing_denied_counts_zero(q, requests);
        if denies_requested(ps.last(), requests) {
            law_denying_nothing_meets_only_empty_requests(ps.last(), requests);
        }
    }
}

/// An overwrite that does not deny "View Channel" (bit `1 << 10`) adds no denial to the count;
/// one for @everyone that does adds exactly one.
pub proof fn law_view_denials_push(ps: Seq<PermissionOverwrite>, p: PermissionOverwrite, guild_id: u64)
    ensures
        p.deny & 1024u64 != 1024u64 ==> view_denials(ps.push(p), guild_id) == view_denials(ps, guild_id),
        p.kind != everyone(guild_id) ==> view_denials(ps.push(p), guild_id) == view_denials(ps, guild_id),
        p.kind == everyone(guild_id) && p.deny & 1024u64 == 1024u64 ==>
            view_denials(ps.push(p), guild_id) == view_denials(ps, guild_id) + 1,
{
    assert(ps.push(p).drop_last() =~= ps);
}

/// A channel whose overwrites do not deny "View Channel" counts no denial, so `make_visible`
/// acts on it.
pub proof fn law_no_view_denial_counts_zero(ps: Seq<PermissionOverwrite>, guild_id: u64)
    ensures
        (forall|i: int| 0 <= i < ps.len() ==> #[trigger] ps[i].deny & 1024u64 != 1024u64)
            ==> view_denials(ps, guild_id) == 0,
    decreases ps.len(),
{
    if ps.len() > 0 && (forall|i: int| 0 <= i < ps.len() ==> #[trigger] ps[i].deny & 1024u64 != 1024u64) {
        let q = ps.drop_last();
        assert forall|i: int| 0 <= i < q.len() implies #[trigger] q[i].deny & 1024u64 != 1024u64 by {
            assert(q[i] == ps[i]);
        }
        law_no_view_denial_counts_zero(q, guild_id);
        assert(ps.last() == ps[ps.len() - 1]);
    }
}

/// Whether @everyone may speak is read from the first overwrite for the guild's @everyone role
/// (the role whose id is the guild's): it may unless that overwrite denies "Speak" (bit
/// `1 << 21`); with no overwrite for that role, it may.
pub proof fn law_everyone_may_speak_reads_first_overwrite(ps: Seq<PermissionOverwrite>, guild_id: u64, i: int)
    ensures
        (forall|j: int| 0 <= j < ps.len() ==> #[trigger] ps[j].kind != PermissionOverwriteKind::Role(guild_id))
            ==> everyone_may_speak(ps, guild_id),
        0 <= i < ps.len() && ps[i].kind == PermissionOverwriteKind::Role(guild_id)
            && (forall|j: int| 0 <= j < i ==> #[trigger] ps[j].kind != PermissionOverwriteKind::Role(guild_id))
            ==> everyone_may_speak(ps, guild_id) == (ps[i].deny & 2097152u64 != 2097152u64),
{
    if 0 <= i < ps.len() && ps[i].kind == PermissionOverwriteKind::Role(guild_id)
        && (forall|j: int| 0 <= j < i ==> #[trigger] ps[j].kind != PermissionOverwriteKind::Role(guild_id)) {
        lemma_first_unique(ps, everyone(guild_id), i);
    }
}

} // verus!
