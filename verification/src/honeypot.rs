//! The honeypot of a guild: channels in which any message gets its author
//! kicked, and the safe roles whose members are left alone.

use vstd::prelude::*;

verus! {

broadcast use vstd::seq_lib::group_seq_properties;

/// The honeypot row of a guild.
pub struct Honeypot {
    pub guild_id: i64,
    pub channel_ids: Vec<i64>,
    pub safe_role_ids: Vec<i64>,
    pub enabled: bool,
}

/// The mathematical model of a honeypot row.
pub struct HoneypotView {
    pub guild_id: i64,
    pub channel_ids: Seq<i64>,
    pub safe_role_ids: Seq<i64>,
    pub enabled: bool,
}

impl View for Honeypot {
    type V = HoneypotView;

    open spec fn view(&self) -> HoneypotView {
        HoneypotView {
            guild_id: self.guild_id,
            channel_ids: self.channel_ids@,
            safe_role_ids: self.safe_role_ids@,
            enabled: self.enabled,
        }
    }
}

/// How Discord ids (unsigned) are stored in the database (signed).
pub open spec fn db_id(id: u64) -> i64 {
    id as i64
}

/// The ids with every occurrence of `x` taken out, the others kept in order.
pub open spec fn without(ids: Seq<i64>, x: i64) -> Seq<i64> {
    ids.filter(differs_from(x))
}

/// The database form of an id loses nothing: read back as unsigned it is
/// the id itself, ids up to `i64::MAX` keep their value, and larger ones
/// wrap to the negative value with the same 64 bits.
pub proof fn law_db_id_is_lossless(id: u64)
    ensures
        db_id(id) as u64 == id,
        id <= i64::MAX ==> db_id(id) == id as int,
        id > i64::MAX ==> db_id(id) == id as int - 18_446_744_073_709_551_616,
{
    assert((id as i64) as u64 == id) by (bit_vector);
    assert(id > 9223372036854775807u64 ==> (id as i64) as int == id as int - 18_446_744_073_709_551_616int) by (bit_vector);
}

/// Two different ids never share a database form.
pub proof fn law_db_id_is_injective(a: u64, b: u64)
    ensures
        db_id(a) == db_id(b) ==> a == b,
{
    law_db_id_is_lossless(a);
    law_db_id_is_lossless(b);
}

/// An enabled honeypot whose stored channels hold the channel's id, cast to
/// `i64` as the original stores it, is armed for that channel.
pub proof fn law_stored_channel_is_armed(h: HoneypotView, channel_id: u64)
    requires
        h.enabled,
        h.channel_ids.contains(channel_id as i64),
    ensures
        h.armed_for(channel_id),
{
    assert((channel_id as i64) as u64 == channel_id) by (bit_vector);
    law_db_id_is_lossless(channel_id);
    law_db_id_is_injective(channel_id, (channel_id as i64) as u64);
}

/// The ids with `x` appended, unless it is already among them.
pub open spec fn with_id(ids: Seq<i64>, x: i64) -> Seq<i64> {
    if ids.contains(x) {
        ids
    } else {
        ids.push(x)
    }
}

/// After adding an id, it is among the ids.
proof fn lemma_with_id_contains(ids: Seq<i64>, x: i64)
    ensures
        with_id(ids, x).contains(x),
{
    if !ids.contains(x) {
        assert(ids.push(x)[ids.len() as int] == x);
    }
}

/// The test "is not `x`".
pub open spec fn differs_from(x: i64) -> spec_fn(i64) -> bool {
    |y: i64| y != x
}

/// Whether some role of the member is one of the safe roles.
pub open spec fn protected(safe_role_ids: Seq<i64>, member_roles: Seq<u64>) -> bool {
    exists|j: int| 0 <= j < member_roles.len() && safe_role_ids.contains(#[trigger] db_id(member_roles[j]))
}

impl HoneypotView {
    /// Whether a message in `channel_id` falls into this honeypot.
    pub open spec fn armed_for(self, channel_id: u64) -> bool {
        self.enabled && self.channel_ids.contains(db_id(channel_id))
    }

    /// Whether the author of a message in `channel_id`, with the roles
    /// `member_roles`, is kicked by this honeypot.
    pub open spec fn kicks(self, channel_id: u64, member_roles: Seq<u64>) -> bool {
        self.armed_for(channel_id) && !protected(self.safe_role_ids, member_roles)
    }

    /// The row after a safe role is added: appended unless already there,
    /// as the stored row is updated.
    pub open spec fn with_safe_role(self, role_id: u64) -> HoneypotView {
        HoneypotView { safe_role_ids: with_id(self.safe_role_ids, db_id(role_id)), ..self }
    }

    pub open spec fn without_safe_role(self, role_id: u64) -> HoneypotView {
        HoneypotView { safe_role_ids: without(self.safe_role_ids, db_id(role_id)), ..self }
    }

    /// The row after a honeypot channel is added: appended unless already
    /// there, as the stored row is updated.
    pub open spec fn with_channel(self, channel_id: u64) -> HoneypotView {
        HoneypotView { channel_ids: with_id(self.channel_ids, db_id(channel_id)), ..self }
    }

    pub open spec fn without_channel(self, channel_id: u64) -> HoneypotView {
        HoneypotView { channel_ids: without(self.channel_ids, db_id(channel_id)), ..self }
    }
}

/// The same id in database form.
pub fn to_db_id(id: u64) -> (res: i64)
    ensures
        res == db_id(id),
{
    id as i64
}

/// Each id in database form, in order.
pub fn ids_for_db(ids: &Vec<u64>) -> (res: Vec<i64>)
    ensures
        res@ == ids@.map_values(|x: u64| db_id(x)),
{
    let mut out: Vec<i64> = Vec::new();
    let mut i: usize = 0;
    while i < ids.len()
        invariant
            i <= ids.len(),
            out@ == ids@.take(i as int).map_values(|x: u64| db_id(x)),
        decreases ids.len() - i,
    {
        out.push(to_db_id(ids[i]));
        i = i + 1;
        assert(out@ =~= ids@.take(i as int).map_values(|x: u64| db_id(x)));
    }
    assert(ids@.take(i as int) =~= ids@);
    out
}

/// Whether `x` occurs among the ids.
pub fn contains_id(ids: &Vec<i64>, x: i64) -> (res: bool)
    ensures
        res == ids@.contains(x),
{
    let mut i: usize = 0;
    while i < ids.len()
        invariant
            i <= ids.len(),
            forall|j: int| 0 <= j < i ==> ids@[j] != x,
        decreases ids.len() - i,
    {
        if ids[i] == x {
            return true;
        }
        i = i + 1;
    }
    false
}

/// A copy of the ids without any occurrence of `x`.
fn remove_all(ids: &Vec<i64>, x: i64) -> (res: Vec<i64>)
    ensures
        res@ == without(ids@, x),
{
    let mut out: Vec<i64> = Vec::new();
    let mut i: usize = 0;
    while i < ids.len()
        invariant
            i <= ids.len(),
            out@ == without(ids@.take(i as int), x),
        decreases ids.len() - i,
    {
        let y = ids[i];
        proof {
            assert(ids@.take(i + 1) =~= ids@.take(i as int).push(y));
            ids@.take(i as int).lemma_filter_push(y, differs_from(x));
        }
        if y != x {
            out.push(y);
        }
        i = i + 1;
    }
    assert(ids@.take(i as int) =~= ids@);
    out
}

impl Honeypot {
    /// The row that setting up a honeypot stores: one honeypot channel, one
    /// safe role, armed unless told otherwise.
    pub fn configured(guild_id: u64, channel_id: u64, safe_role_id: u64, enabled: Option<bool>) -> (res: Honeypot)
        ensures
            res@ == (HoneypotView {
                guild_id: db_id(guild_id),
                channel_ids: seq![db_id(channel_id)],
                safe_role_ids: seq![db_id(safe_role_id)],
                enabled: match enabled {
                    Some(e) => e,
                    None => true,
                },
            }),
    {
        let mut channel_ids: Vec<i64> = Vec::new();
        channel_ids.push(to_db_id(channel_id));
        let mut safe_role_ids: Vec<i64> = Vec::new();
        safe_role_ids.push(to_db_id(safe_role_id));
        let enabled = match enabled {
            Some(e) => e,
            None => true,
        };
        let res = Honeypot { guild_id: to_db_id(guild_id), channel_ids, safe_role_ids, enabled };
        assert(res@.channel_ids =~= seq![db_id(channel_id)]);
        assert(res@.safe_role_ids =~= seq![db_id(safe_role_id)]);
        res
    }

    /// Adds a safe role to the copy of the row that was read, as the stored
    /// row is updated: appended unless already there.
    pub fn add_safe_role(&mut self, role_id: u64)
        ensures
            final(self)@ == old(self)@.with_safe_role(role_id),
    {
        let id = to_db_id(role_id);
        if !contains_id(&self.safe_role_ids, id) {
            self.safe_role_ids.push(id);
        }
    }

    /// Takes every occurrence of a safe role out of the copy of the row.
    pub fn remove_safe_role(&mut self, role_id: u64)
        ensures
            final(self)@ == old(self)@.without_safe_role(role_id),
    {
        self.safe_role_ids = remove_all(&self.safe_role_ids, to_db_id(role_id));
    }

    /// Adds a honeypot channel to the copy of the row that was read, as the
    /// stored row is updated: appended unless already there.
    pub fn add_honeypot_channel(&mut self, channel_id: u64)
        ensures
            final(self)@ == old(self)@.with_channel(channel_id),
    {
        let id = to_db_id(channel_id);
        if !contains_id(&self.channel_ids, id) {
            self.channel_ids.push(id);
        }
    }

    /// Takes every occurrence of a honeypot channel out of the copy of the row.
    pub fn remove_honeypot_channel(&mut self, channel_id: u64)
        ensures
            final(self)@ == old(self)@.without_channel(channel_id),
    {
        self.channel_ids = remove_all(&self.channel_ids, to_db_id(channel_id));
    }

    /// Whether a message in `channel_id` falls into this honeypot: it is
    /// armed and the channel is one of its channels.
    pub fn armed_for(&self, channel_id: u64) -> (res: bool)
        ensures
            res == self@.armed_for(channel_id),
    {
        self.enabled && contains_id(&self.channel_ids, to_db_id(channel_id))
    }

    /// Whether one of the member's roles is a safe role.
    pub fn is_protected(&self, member_roles: &Vec<u64>) -> (res: bool)
        ensures
            res == protected(self@.safe_role_ids, member_roles@),
    {
        let mut j: usize = 0;
        while j < member_roles.len()
            invariant
                j <= member_roles.len(),
                forall|k: int| 0 <= k < j ==> !self.safe_role_ids@.contains(#[trigger] db_id(member_roles@[k])),
            decreases member_roles.len() - j,
        {
            if contains_id(&self.safe_role_ids, to_db_id(member_roles[j])) {
                return true;
            }
            j = j + 1;
        }
        false
    }
}

/// Whether the author of a message in `channel_id`, holding the roles
/// `member_roles`, is kicked by this (possibly missing) honeypot: it is
/// armed for the channel and none of the roles is a safe role.
pub fn honeypot_kicks(honeypot: &Option<Honeypot>, channel_id: u64, member_roles: &Vec<u64>) -> (res: bool)
    ensures
        res == (honeypot matches Some(h) && h@.kicks(channel_id, member_roles@)),
{
    match honeypot {
        Some(h) => h.armed_for(channel_id) && !h.is_protected(member_roles),
        None => false,
    }
}

/// Whether a message in `channel_id` of a guild with this (possibly missing)
/// honeypot falls into it.
pub fn honeypot_armed(honeypot: &Option<Honeypot>, channel_id: u64) -> (res: bool)
    ensures
        res == (honeypot matches Some(h) && h@.armed_for(channel_id)),
{
    match honeypot {
        Some(h) => h.armed_for(channel_id),
        None => false,
    }
}

/// A channel that has just been taken out of a honeypot no longer triggers it.
pub proof fn law_removed_channel_is_disarmed(h: HoneypotView, channel_id: u64)
    ensures
        !h.without_channel(channel_id).armed_for(channel_id),
{
    let s = h.without_channel(channel_id).channel_ids;
    if s.contains(db_id(channel_id)) {
        let k = choose|k: int| 0 <= k < s.len() && s[k] == db_id(channel_id);
        h.channel_ids.lemma_filter_pred(differs_from(db_id(channel_id)), k);
    }
}

/// An armed honeypot triggers in a channel that has just been added to it.
pub proof fn law_added_channel_is_armed(h: HoneypotView, channel_id: u64)
    requires
        h.enabled,
    ensures
        h.with_channel(channel_id).armed_for(channel_id),
{
    lemma_with_id_contains(h.channel_ids, db_id(channel_id));
}

/// A member holding a safe role is never acted upon, in any channel.
pub proof fn law_safe_role_is_never_kicked(h: HoneypotView, channel_id: u64, member_roles: Seq<u64>)
    requires
        protected(h.safe_role_ids, member_roles),
    ensures
        !h.kicks(channel_id, member_roles),
{
}

/// A message outside the honeypot channels never gets its author kicked.
pub proof fn law_other_channels_are_never_armed(h: HoneypotView, channel_id: u64, member_roles: Seq<u64>)
    requires
        !h.channel_ids.contains(db_id(channel_id)),
    ensures
        !h.kicks(channel_id, member_roles),
{
}

/// A disarmed honeypot never kicks anybody, in any channel.
pub proof fn law_disarmed_never_kicks(h: HoneypotView, channel_id: u64, member_roles: Seq<u64>)
    requires
        !h.enabled,
    ensures
        !h.kicks(channel_id, member_roles),
{
}

/// A member who holds a role that has just been made safe is never kicked.
pub proof fn law_added_safe_role_protects(
    h: HoneypotView,
    role_id: u64,
    channel_id: u64,
    member_roles: Seq<u64>,
)
    requires
        member_roles.contains(role_id),
    ensures
        protected(h.with_safe_role(role_id).safe_role_ids, member_roles),
        !h.with_safe_role(role_id).kicks(channel_id, member_roles),
{
    let j = choose|j: int| 0 <= j < member_roles.len() && member_roles[j] == role_id;
    lemma_with_id_contains(h.safe_role_ids, db_id(role_id));
    assert(h.with_safe_role(role_id).safe_role_ids.contains(db_id(member_roles[j])));
}

/// After a safe role is taken out, a member is protected exactly when
/// another of the member's roles is still one of the safe roles.
pub proof fn law_removed_safe_role(h: HoneypotView, role_id: u64, member_roles: Seq<u64>)
    ensures
        protected(h.without_safe_role(role_id).safe_role_ids, member_roles) <==> exists|j: int|
            0 <= j < member_roles.len() && db_id(member_roles[j]) != db_id(role_id)
                && h.safe_role_ids.contains(#[trigger] db_id(member_roles[j])),
{
    let p = differs_from(db_id(role_id));
    let s = h.without_safe_role(role_id).safe_role_ids;
    if protected(s, member_roles) {
        let j = choose|j: int| 0 <= j < member_roles.len() && s.contains(#[trigger] db_id(member_roles[j]));
        let k = choose|k: int| 0 <= k < s.len() && s[k] == db_id(member_roles[j]);
        h.safe_role_ids.lemma_filter_pred(p, k);
        h.safe_role_ids.lemma_filter_contains_rev(p, s[k]);
        assert(db_id(member_roles[j]) != db_id(role_id));
        assert(h.safe_role_ids.contains(db_id(member_roles[j])));
    }
    if exists|j: int|
        0 <= j < member_roles.len() && db_id(member_roles[j]) != db_id(role_id)
            && h.safe_role_ids.contains(#[trigger] db_id(member_roles[j])) {
        let j = choose|j: int|
            0 <= j < member_roles.len() && db_id(member_roles[j]) != db_id(role_id)
                && h.safe_role_ids.contains(#[trigger] db_id(member_roles[j]));
        let k = choose|k: int| 0 <= k < h.safe_role_ids.len() && h.safe_role_ids[k] == db_id(member_roles[j]);
        h.safe_role_ids.lemma_filter_contains(p, k);
        assert(s.contains(db_id(member_roles[j])));
    }
}

/// Adding a safe role that is already there changes nothing, so adding a
/// role twice is the same as adding it once.
pub proof fn law_add_safe_role_is_idempotent(h: HoneypotView, role_id: u64)
    ensures
        h.with_safe_role(role_id).with_safe_role(role_id) == h.with_safe_role(role_id),
        h.safe_role_ids.contains(db_id(role_id)) ==> h.with_safe_role(role_id) == h,
{
    lemma_with_id_contains(h.safe_role_ids, db_id(role_id));
}

/// Adding a honeypot channel that is already there changes nothing, so
/// adding a channel twice is the same as adding it once.
pub proof fn law_add_channel_is_idempotent(h: HoneypotView, channel_id: u64)
    ensures
        h.with_channel(channel_id).with_channel(channel_id) == h.with_channel(channel_id),
        h.channel_ids.contains(db_id(channel_id)) ==> h.with_channel(channel_id) == h,
{
    lemma_with_id_contains(h.channel_ids, db_id(channel_id));
}

/// Taking a safe role out undoes adding it: adding then removing a role
/// gives the same row as removing it alone.
pub proof fn law_remove_undoes_add_safe_role(h: HoneypotView, role_id: u64)
    ensures
        h.with_safe_role(role_id).without_safe_role(role_id) == h.without_safe_role(role_id),
{
    if !h.safe_role_ids.contains(db_id(role_id)) {
        h.safe_role_ids.lemma_filter_push(db_id(role_id), differs_from(db_id(role_id)));
    }
    assert(h.with_safe_role(role_id).without_safe_role(role_id).safe_role_ids
        =~= h.without_safe_role(role_id).safe_role_ids);
}

/// Taking a honeypot channel out undoes adding it: adding then removing a
/// channel gives the same row as removing it alone.
pub proof fn law_remove_undoes_add_channel(h: HoneypotView, channel_id: u64)
    ensures
        h.with_channel(channel_id).without_channel(channel_id) == h.without_channel(channel_id),
{
    if !h.channel_ids.contains(db_id(channel_id)) {
        h.channel_ids.lemma_filter_push(db_id(channel_id), differs_from(db_id(channel_id)));
    }
    assert(h.with_channel(channel_id).without_channel(channel_id).channel_ids
        =~= h.without_channel(channel_id).channel_ids);
}

/// Channels and safe roles other than the one removed stay, in order.
pub proof fn law_remove_keeps_others(ids: Seq<i64>, x: i64, y: i64)
    requires
        y != x,
    ensures
        without(ids, x).contains(y) == ids.contains(y),
{
    let p = differs_from(x);
    if ids.contains(y) {
        let k = choose|k: int| 0 <= k < ids.len() && ids[k] == y;
        ids.lemma_filter_contains(p, k);
    }
    if without(ids, x).contains(y) {
        ids.lemma_filter_contains_rev(p, y);
    }
}

} // verus!
