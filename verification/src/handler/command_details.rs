use crate::util::{dec_of, lower_of, lowercase, str_eq, u64_to_dec};
use vstd::prelude::*;

verus! {

/// The value carried by one node of an incoming option tree.
pub enum OptionValue {
    Absent,
    Text(String),
    UserRef(u64),
    ChannelRef(u64),
}

pub enum OptionValueView {
    Absent,
    Text(Seq<char>),
    UserRef(u64),
    ChannelRef(u64),
}

impl View for OptionValue {
    type V = OptionValueView;

    open spec fn view(&self) -> OptionValueView {
        match self {
            OptionValue::Absent => OptionValueView::Absent,
            OptionValue::Text(s) => OptionValueView::Text(s@),
            OptionValue::UserRef(id) => OptionValueView::UserRef(*id),
            OptionValue::ChannelRef(id) => OptionValueView::ChannelRef(*id),
        }
    }
}

/// The innermost level of an incoming option tree: a typed parameter.
pub struct CommandParam {
    pub name: String,
    pub value: OptionValue,
}

/// The middle level of an incoming option tree: a parameter of a selected
/// sub-command, or a sub-command selected inside a group, with its own
/// parameters below it.
pub struct CommandNode {
    pub name: String,
    pub value: OptionValue,
    pub options: Vec<CommandParam>,
}

/// The top level of an incoming option tree: the selected sub-command or
/// sub-command group. Three levels of nesting are the most the platform
/// delivers, and the most these types can express.
pub struct CommandDataOption {
    pub name: String,
    pub value: OptionValue,
    pub options: Vec<CommandNode>,
}

pub struct CommandParamView {
    pub name: Seq<char>,
    pub value: OptionValueView,
}

pub struct CommandNodeView {
    pub name: Seq<char>,
    pub value: OptionValueView,
    pub options: Seq<CommandParamView>,
}

pub struct CommandDataOptionView {
    pub name: Seq<char>,
    pub value: OptionValueView,
    pub options: Seq<CommandNodeView>,
}

impl View for CommandParam {
    type V = CommandParamView;

    open spec fn view(&self) -> CommandParamView {
        CommandParamView { name: self.name@, value: self.value@ }
    }
}

impl View for CommandNode {
    type V = CommandNodeView;

    open spec fn view(&self) -> CommandNodeView {
        CommandNodeView {
            name: self.name@,
            value: self.value@,
            options: self.options@.map_values(|p: CommandParam| p@),
        }
    }
}

impl View for CommandDataOption {
    type V = CommandDataOptionView;

    open spec fn view(&self) -> CommandDataOptionView {
        CommandDataOptionView {
            name: self.name@,
            value: self.value@,
            options: self.options@.map_values(|n: CommandNode| n@),
        }
    }
}

/// What a member looks like to the library: the attributes handlers read,
/// as plain values.
pub struct MemberRecord {
    pub user_id: u64,
    pub user_name: String,
    pub discriminator: u16,
    pub nick: Option<String>,
    pub roles: Vec<u64>,
    pub joined_at: Option<String>,
    pub created_at: String,
    pub avatar_url: Option<String>,
    pub default_avatar_url: String,
}

pub struct MemberView {
    pub user_id: u64,
    pub user_name: Seq<char>,
    pub discriminator: u16,
    pub nick: Option<Seq<char>>,
    pub roles: Seq<u64>,
    pub joined_at: Option<Seq<char>>,
    pub created_at: Seq<char>,
    pub avatar_url: Option<Seq<char>>,
    pub default_avatar_url: Seq<char>,
}

pub open spec fn opt_text_view(s: Option<String>) -> Option<Seq<char>> {
    match s {
        Some(t) => Some(t@),
        None => None,
    }
}

impl View for MemberRecord {
    type V = MemberView;

    open spec fn view(&self) -> MemberView {
        MemberView {
            user_id: self.user_id,
            user_name: self.user_name@,
            discriminator: self.discriminator,
            nick: opt_text_view(self.nick),
            roles: self.roles@,
            joined_at: opt_text_view(self.joined_at),
            created_at: self.created_at@,
            avatar_url: opt_text_view(self.avatar_url),
            default_avatar_url: self.default_avatar_url@,
        }
    }
}

fn copy_ids(v: &Vec<u64>) -> (r: Vec<u64>)
    ensures
        r@ == v@,
{
    let mut r: Vec<u64> = Vec::new();
    let mut i: usize = 0;
    while i < v.len()
        invariant
            0 <= i <= v.len(),
            r@ == v@.take(i as int),
        decreases v.len() - i,
    {
        r.push(v[i]);
        proof {
            assert(v@.take(i + 1 as int) =~= v@.take(i as int).push(v@[i as int]));
        }
        i += 1;
    }
    proof {
        assert(v@.take(v@.len() as int) =~= v@);
    }
    r
}

fn copy_opt_text(s: &Option<String>) -> (r: Option<String>)
    ensures
        opt_text_view(r) == opt_text_view(*s),
{
    match s {
        Some(t) => Some(t.clone()),
        None => None,
    }
}

impl MemberRecord {
    /// A fresh record with the same attributes.
    pub fn duplicate(&self) -> (r: MemberRecord)
        ensures
            r@ == self@,
    {
        MemberRecord {
            user_id: self.user_id,
            user_name: self.user_name.clone(),
            discriminator: self.discriminator,
            nick: copy_opt_text(&self.nick),
            roles: copy_ids(&self.roles),
            joined_at: copy_opt_text(&self.joined_at),
            created_at: self.created_at.clone(),
            avatar_url: copy_opt_text(&self.avatar_url),
            default_avatar_url: self.default_avatar_url.clone(),
        }
    }
}

/// Whether `sub` occurs contiguously somewhere in `s`.
pub open spec fn contains_sub(s: Seq<char>, sub: Seq<char>) -> bool {
    exists|i: int|
        0 <= i && i + sub.len() <= s.len() && #[trigger] s.subrange(i, i + sub.len()) == sub
}

fn match_at(s: &str, sub: &str, i: usize) -> (r: bool)
    requires
        i + sub@.len() <= s@.len(),
    ensures
        r == (s@.subrange(i as int, i as int + sub@.len()) == sub@),
{
    let n = s.unicode_len();
    let m = sub.unicode_len();
    let mut j: usize = 0;
    while j < m
        invariant
            i + m <= n,
            n == s@.len(),
            m == sub@.len(),
            0 <= j <= m,
            forall|t: int| 0 <= t < j ==> s@[i + t] == sub@[t],
        decreases m - j,
    {
        if s.get_char(i + j) != sub.get_char(j) {
            proof {
                assert(s@.subrange(i as int, i as int + sub@.len())[j as int] == s@[i + j]);
            }
            return false;
        }
        j += 1;
    }
    proof {
        assert(s@.subrange(i as int, i as int + sub@.len()) =~= sub@);
    }
    true
}

/// Substring search, the way member names are matched against a query.
pub fn str_contains_sub(s: &str, sub: &str) -> (r: bool)
    ensures
        r == contains_sub(s@, sub@),
{
    let n = s.unicode_len();
    let m = sub.unicode_len();
    if m > n {
        return false;
    }
    if m == 0 {
        proof {
            let w: int = 0;
            assert(s@.subrange(w, w + sub@.len()) =~= sub@);
        }
        return true;
    }
    let mut i: usize = 0;
    while i <= n - m
        invariant
            1 <= m <= n,
            n == s@.len(),
            m == sub@.len(),
            0 <= i <= n - m + 1,
            forall|k: int| 0 <= k < i ==> #[trigger] s@.subrange(k, k + sub@.len()) != sub@,
        decreases n - m - i + 1,
    {
        if match_at(s, sub, i) {
            return true;
        }
        i += 1;
    }
    false
}

fn contains_u64(v: &Vec<u64>, x: u64) -> (r: bool)
    ensures
        r == v@.contains(x),
{
    let mut i: usize = 0;
    while i < v.len()
        invariant
            0 <= i <= v.len(),
            forall|k: int| 0 <= k < i ==> v@[k] != x,
        decreases v.len() - i,
    {
        if v[i] == x {
            return true;
        }
        i += 1;
    }
    false
}

/// The text of an option value; values that carry no text read as empty.
pub open spec fn value_text(v: OptionValueView) -> Seq<char> {
    match v {
        OptionValueView::Text(s) => s,
        _ => Seq::empty(),
    }
}

/// The lowercased query an option value poses.
pub open spec fn query_of(v: OptionValueView) -> Seq<char> {
    match v {
        OptionValueView::Text(s) => lower_of(s),
        _ => Seq::empty(),
    }
}

/// Whether a member answers a lowercased fuzzy query: by exact identifier,
/// by case-insensitive substring of the username, by case-insensitive
/// substring of the nickname, or by presence in the interaction's
/// pre-resolved member set. All strategies are unioned, none short-circuits
/// the others out.
pub open spec fn member_matches(m: MemberView, q: Seq<char>, resolved: Seq<u64>) -> bool {
    ||| dec_of(m.user_id as nat) == q
    ||| contains_sub(lower_of(m.user_name), q)
    ||| contains_sub(lower_of(nick_text(m.nick)), q)
    ||| resolved.contains(m.user_id)
}

pub open spec fn nick_text(n: Option<Seq<char>>) -> Seq<char> {
    match n {
        Some(s) => s,
        None => Seq::empty(),
    }
}

fn member_matches_exec(m: &MemberRecord, q: &str, resolved: &Vec<u64>) -> (r: bool)
    ensures
        r == member_matches(m@, q@, resolved@),
{
    let id_text = u64_to_dec(m.user_id);
    if str_eq(id_text.as_str(), q) {
        return true;
    }
    let name_lower = lowercase(m.user_name.as_str());
    if str_contains_sub(name_lower.as_str(), q) {
        return true;
    }
    let nick_lower = match &m.nick {
        Some(n) => lowercase(n.as_str()),
        None => {
            let e = lowercase("");
            proof {
                reveal_strlit("");
                assert(""@ =~= Seq::<char>::empty());
            }
            e
        },
    };
    if str_contains_sub(nick_lower.as_str(), q) {
        return true;
    }
    contains_u64(resolved, m.user_id)
}

/// The members that answer a query, in the order the guild lists them, with
/// multiplicity kept.
pub open spec fn selected_members(
    ms: Seq<MemberView>,
    q: Seq<char>,
    resolved: Seq<u64>,
) -> Seq<MemberView>
    decreases ms.len(),
{
    if ms.len() == 0 {
        Seq::empty()
    } else {
        let rest = selected_members(ms.drop_last(), q, resolved);
        if member_matches(ms.last(), q, resolved) {
            rest.push(ms.last())
        } else {
            rest
        }
    }
}

/// Law: fuzzy resolution unions its strategies. A member that answers any
/// one of them — identifier, username, nickname or the pre-resolved set —
/// is selected, whatever the others say.
pub proof fn lemma_member_match_is_a_union(
    ms: Seq<MemberView>,
    q: Seq<char>,
    resolved: Seq<u64>,
    i: int,
)
    requires
        0 <= i < ms.len(),
        member_matches(ms[i], q, resolved),
    ensures
        selected_members(ms, q, resolved).contains(ms[i]),
    decreases ms.len(),
{
    let sel = selected_members(ms, q, resolved);
    if i == ms.len() - 1 {
        let rest = selected_members(ms.drop_last(), q, resolved);
        assert(sel == rest.push(ms.last()));
        assert(sel[rest.len() as int] == ms[i]);
    } else {
        assert(ms.drop_last()[i] == ms[i]);
        lemma_member_match_is_a_union(ms.drop_last(), q, resolved, i);
        let rest = selected_members(ms.drop_last(), q, resolved);
        let j = choose|j: int| 0 <= j < rest.len() && rest[j] == ms[i];
        if member_matches(ms.last(), q, resolved) {
            assert(sel[j] == ms[i]);
        }
    }
}

/// Resolves a member-reference parameter against the guild's member list by
/// fuzzy matching; every member matching any strategy is returned.
pub fn parse_command_members(
    option: &CommandNode,
    guild_members: &Vec<MemberRecord>,
    resolved_member_ids: &Vec<u64>,
) -> (r: Vec<MemberRecord>)
    ensures
        r@.map_values(|m: MemberRecord| m@) == selected_members(
            guild_members@.map_values(|m: MemberRecord| m@),
            query_of(option.value@),
            resolved_member_ids@,
        ),
{
    let q: String = match &option.value {
        OptionValue::Text(s) => lowercase(s.as_str()),
        _ => {
            let e = String::new();
            proof {
                assert(e@ =~= query_of(option.value@));
            }
            e
        },
    };
    let ghost views = guild_members@.map_values(|m: MemberRecord| m@);
    let mut r: Vec<MemberRecord> = Vec::new();
    let mut i: usize = 0;
    while i < guild_members.len()
        invariant
            0 <= i <= guild_members.len(),
            views == guild_members@.map_values(|m: MemberRecord| m@),
            q@ == query_of(option.value@),
            r@.map_values(|m: MemberRecord| m@) == selected_members(
                views.take(i as int),
                q@,
                resolved_member_ids@,
            ),
        decreases guild_members.len() - i,
    {
        let ghost prev = r@.map_values(|m: MemberRecord| m@);
        if member_matches_exec(&guild_members[i], q.as_str(), resolved_member_ids) {
            r.push(guild_members[i].duplicate());
        }
        proof {
            assert(views.take(i + 1 as int).drop_last() =~= views.take(i as int));
            assert(views.take(i + 1 as int).last() == views[i as int]);
            assert(r@.map_values(|m: MemberRecord| m@) =~= selected_members(
                views.take(i + 1 as int),
                q@,
                resolved_member_ids@,
            ));
        }
        i += 1;
    }
    proof {
        assert(views.take(guild_members@.len() as int) =~= views);
    }
    r
}

/// Where the tokens of a free-text multi-value parameter end: at every
/// single space, with no escaping and no quoting; `cur` is the token read
/// so far.
pub open spec fn split_at_spaces(s: Seq<char>, cur: Seq<char>) -> Seq<Seq<char>>
    decreases s.len(),
{
    if s.len() == 0 {
        seq![cur]
    } else if s[0] == ' ' {
        seq![cur] + split_at_spaces(s.drop_first(), Seq::empty())
    } else {
        split_at_spaces(s.drop_first(), cur.push(s[0]))
    }
}

/// The tokens of a free-text multi-value parameter: the text split at every
/// single space. An empty text yields one empty token.
pub open spec fn split_spec(s: Seq<char>) -> Seq<Seq<char>> {
    split_at_spaces(s, Seq::empty())
}

/// Splits a free-text value into tokens at spaces.
pub fn split_tokens(s: &str) -> (r: Vec<String>)
    ensures
        r@.map_values(|t: String| t@) == split_spec(s@),
{
    let n = s.unicode_len();
    let mut out: Vec<String> = Vec::new();
    let mut start: usize = 0;
    let mut i: usize = 0;
    proof {
        assert(out@.map_values(|t: String| t@) =~= Seq::<Seq<char>>::empty());
        assert(s@.skip(0) =~= s@);
        assert(s@.subrange(0, 0) =~= Seq::<char>::empty());
        assert(Seq::<Seq<char>>::empty() + split_at_spaces(s@, Seq::empty()) =~= split_at_spaces(
            s@,
            Seq::empty(),
        ));
    }
    while i < n
        invariant
            n == s@.len(),
            0 <= start <= i <= n,
            split_spec(s@) == out@.map_values(|t: String| t@) + split_at_spaces(
                s@.skip(i as int),
                s@.subrange(start as int, i as int),
            ),
        decreases n - i,
    {
        let ghost pre = out@.map_values(|t: String| t@);
        let ghost cur = s@.subrange(start as int, i as int);
        proof {
            assert(s@.skip(i as int)[0] == s@[i as int]);
            assert(s@.skip(i as int).drop_first() =~= s@.skip(i + 1 as int));
        }
        if s.get_char(i) == ' ' {
            let token = String::from_str(s.substring_char(start, i));
            out.push(token);
            start = i + 1;
            proof {
                assert(out@.map_values(|t: String| t@) =~= pre.push(cur));
                assert(split_at_spaces(s@.skip(i as int), cur) == seq![cur] + split_at_spaces(
                    s@.skip(i + 1 as int),
                    Seq::empty(),
                ));
                assert(pre + (seq![cur] + split_at_spaces(s@.skip(i + 1 as int), Seq::empty()))
                    =~= pre.push(cur) + split_at_spaces(s@.skip(i + 1 as int), Seq::empty()));
                assert(s@.subrange(start as int, i + 1 as int) =~= Seq::empty());
            }
        } else {
            proof {
                assert(cur.push(s@[i as int]) =~= s@.subrange(start as int, i + 1 as int));
            }
        }
        i += 1;
    }
    let token = String::from_str(s.substring_char(start, n));
    out.push(token);
    proof {
        assert(s@.skip(n as int) =~= Seq::<char>::empty());
        assert(out@.map_values(|t: String| t@) =~= out@.map_values(|t: String| t@).drop_last().push(
            s@.subrange(start as int, n as int),
        ));
        assert(out@.map_values(|t: String| t@) =~= split_spec(s@));
    }
    out
}

/// Extracts a free-text multi-value parameter as a sequence of tokens. A
/// node that carries no value at all yields nothing; a value without text
/// reads as empty text, which yields one empty token.
pub fn parse_command_array(option: &CommandNode) -> (r: Vec<String>)
    ensures
        ({
            let v = option.value@;
            if v is Absent {
                r@.len() == 0
            } else {
                r@.map_values(|t: String| t@) == split_spec(value_text(v))
            }
        }),
{
    match &option.value {
        OptionValue::Absent => Vec::new(),
        OptionValue::Text(s) => split_tokens(s.as_str()),
        _ => {
            let r = split_tokens("");
            proof {
                reveal_strlit("");
                assert(""@ =~= Seq::<char>::empty());
            }
            r
        },
    }
}

} // verus!
