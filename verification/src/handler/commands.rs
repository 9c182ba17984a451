use crate::commands::guild::{variant_of_name, GuildCommands};
use crate::commands::Scope;
use crate::handler::{Handler, HandlerError};
use vstd::hash_map::HashMapWithView;
use vstd::prelude::*;

verus! {

/// One record the platform returns when a guild's command set is replaced:
/// the opaque identifier it assigned, and the name the schema declared.
pub struct CommandRecord {
    pub id: u64,
    pub name: String,
}

impl View for CommandRecord {
    type V = (u64, Seq<char>);

    open spec fn view(&self) -> (u64, Seq<char>) {
        (self.id, self.name@)
    }
}

pub open spec fn records_view(rs: Seq<CommandRecord>) -> Seq<(u64, Seq<char>)> {
    rs.map_values(|r: CommandRecord| r@)
}

/// Whether every declared name in the records resolves to a catalog variant.
/// A name that does not signals a catalog out of sync with the platform.
pub open spec fn all_names_known(rs: Seq<(u64, Seq<char>)>) -> bool {
    forall|i: int| 0 <= i < rs.len() ==> variant_of_name(#[trigger] rs[i].1) is Some
}

/// The identifier-to-variant mapping a record sequence induces, extending a
/// base mapping: later records overwrite earlier ones that reuse an
/// identifier; records with unknown names induce nothing.
pub open spec fn extended_map(
    base: Map<u64, GuildCommands>,
    rs: Seq<(u64, Seq<char>)>,
) -> Map<u64, GuildCommands>
    decreases rs.len(),
{
    if rs.len() == 0 {
        base
    } else {
        match variant_of_name(rs.last().1) {
            Some(v) => extended_map(base, rs.drop_last()).insert(rs.last().0, v),
            None => extended_map(base, rs.drop_last()),
        }
    }
}

/// The identifier-to-variant mapping a record sequence induces from nothing.
pub open spec fn map_of_records(rs: Seq<(u64, Seq<char>)>) -> Map<u64, GuildCommands> {
    extended_map(Map::empty(), rs)
}

/// The per-guild record sets flattened into one sequence, in guild order.
pub open spec fn guilds_view(gs: Seq<Vec<CommandRecord>>) -> Seq<(u64, Seq<char>)>
    decreases gs.len(),
{
    if gs.len() == 0 {
        Seq::empty()
    } else {
        guilds_view(gs.drop_last()) + records_view(gs.last()@)
    }
}

/// The process-wide mapping from platform-assigned command identifiers to
/// catalog variants, one slot per scope. A slot is absent until the first
/// registration for its scope completes, and is only ever replaced
/// wholesale, never mutated entry by entry.
pub struct DispatchTable {
    guild: Option<HashMapWithView<u64, GuildCommands>>,
}

impl DispatchTable {
    /// The mapping installed for a scope, if any. An empty mapping (a scope
    /// registered over no guilds) is distinct from an absent one.
    pub closed spec fn scope_map(&self, s: Scope) -> Option<Map<u64, GuildCommands>> {
        match s {
            Scope::Guild => match self.guild {
                Some(m) => Some(m@),
                None => None,
            },
        }
    }

    /// The table a process starts with: every scope absent.
    pub fn new() -> (r: DispatchTable)
        ensures
            forall|s: Scope| r.scope_map(s) is None,
    {
        DispatchTable { guild: None }
    }

    /// Replaces a scope's mapping wholesale. No reader of the table can meet
    /// a mix of entries: the slot holds the old mapping before this call and
    /// exactly the new one after it.
    pub fn install(&mut self, scope: Scope, map: HashMapWithView<u64, GuildCommands>)
        ensures
            final(self).scope_map(scope) == Some(map@),
            forall|s: Scope| s != scope ==> final(self).scope_map(s) == old(self).scope_map(s),
    {
        match scope {
            Scope::Guild => {
                self.guild = Some(map);
            },
        }
    }

    /// Resolves an invoked command. A scope that was never registered is an
    /// internal fault; an identifier the scope's registration never produced
    /// is an unrecognized command, reported under the invoked name.
    pub fn lookup(&self, scope: Scope, id: u64, invoked_name: &str) -> (r: Result<
        GuildCommands,
        HandlerError,
    >)
        ensures
            match self.scope_map(scope) {
                None => r == Err::<GuildCommands, HandlerError>(HandlerError::TypeMapNotFound),
                Some(m) => if m.contains_key(id) {
                    r == Ok::<GuildCommands, HandlerError>(m[id])
                } else {
                    r matches Err(HandlerError::UnrecognizedCommand(n)) && n@ == invoked_name@
                },
            },
    {
        match scope {
            Scope::Guild => match &self.guild {
                None => Err(HandlerError::TypeMapNotFound),
                Some(m) => match m.get(&id) {
                    Some(v) => Ok(*v),
                    None => Err(
                        HandlerError::UnrecognizedCommand(String::from_str(invoked_name)),
                    ),
                },
            },
        }
    }
}

/// Extending a mapping by concatenated records is extending by each part in
/// turn.
pub proof fn lemma_extended_map_append(
    base: Map<u64, GuildCommands>,
    a: Seq<(u64, Seq<char>)>,
    b: Seq<(u64, Seq<char>)>,
)
    ensures
        extended_map(base, a + b) == extended_map(extended_map(base, a), b),
    decreases b.len(),
{
    if b.len() == 0 {
        assert(a + b =~= a);
    } else {
        assert((a + b).drop_last() =~= a + b.drop_last());
        assert((a + b).last() == b.last());
        lemma_extended_map_append(base, a, b.drop_last());
    }
}

/// The flat view of the guild records decomposes around any one guild.
pub proof fn lemma_guilds_view_decompose(gs: Seq<Vec<CommandRecord>>, g: int)
    requires
        0 <= g < gs.len(),
    ensures
        guilds_view(gs) == guilds_view(gs.take(g)) + records_view(gs[g]@) + guilds_view(
            gs.skip(g + 1),
        ),
    decreases gs.len(),
{
    if g == gs.len() - 1 {
        assert(gs.take(g) =~= gs.drop_last());
        assert(gs.skip(g + 1) =~= Seq::empty());
        assert(guilds_view(gs) =~= guilds_view(gs.take(g)) + records_view(gs[g]@)
            + guilds_view(gs.skip(g + 1)));
    } else {
        let prior = gs.drop_last();
        lemma_guilds_view_decompose(prior, g);
        assert(prior.take(g) =~= gs.take(g));
        assert(prior[g] == gs[g]);
        assert(prior.skip(g + 1).push(gs.last()) =~= gs.skip(g + 1));
        lemma_guilds_view_snoc(prior.skip(g + 1), gs.last());
        assert(guilds_view(gs) =~= guilds_view(gs.take(g)) + records_view(gs[g]@)
            + guilds_view(gs.skip(g + 1)));
    }
}

/// Flattening one more guild appends its records.
pub proof fn lemma_guilds_view_snoc(gs: Seq<Vec<CommandRecord>>, last: Vec<CommandRecord>)
    ensures
        guilds_view(gs.push(last)) == guilds_view(gs) + records_view(last@),
{
    assert(gs.push(last).drop_last() =~= gs);
    assert(gs.push(last).last() == last);
}

impl Handler {
    /// Builds the identifier-to-variant mapping for the records one guild's
    /// registration round-trip returned, on top of what earlier guilds
    /// contributed. A record whose declared name the catalog cannot resolve
    /// fails the whole build; the mapping is then discarded by the caller.
    fn save_command_ids(
        &self,
        map: &mut HashMapWithView<u64, GuildCommands>,
        records: &Vec<CommandRecord>,
    ) -> (r: Result<(), HandlerError>)
        ensures
            all_names_known(records_view(records@)) ==> r is Ok && final(map)@ == extended_map(
                old(map)@,
                records_view(records@),
            ),
            !all_names_known(records_view(records@)) ==> r == Err::<(), HandlerError>(
                HandlerError::CommandRegisterUnknown,
            ),
    {
        let ghost rs = records_view(records@);
        let mut i: usize = 0;
        while i < records.len()
            invariant
                0 <= i <= records.len(),
                rs == records_view(records@),
                all_names_known(rs.take(i as int)),
                map@ == extended_map(old(map)@, rs.take(i as int)),
            decreases records.len() - i,
        {
            let rec = &records[i];
            proof {
                assert(rs[i as int] == (rec.id, rec.name@));
            }
            match GuildCommands::from_name(rec.name.as_str()) {
                Ok(v) => {
                    map.insert(rec.id, v);
                },
                Err(_) => {
                    proof {
                        assert(variant_of_name(rs[i as int].1) is None);
                        assert(!all_names_known(rs));
                    }
                    return Err(HandlerError::CommandRegisterUnknown);
                },
            }
            proof {
                assert(rs.take(i + 1 as int).drop_last() =~= rs.take(i as int));
                assert(rs.take(i + 1 as int).last() == rs[i as int]);
            }
            i += 1;
        }
        proof {
            assert(rs.take(records@.len() as int) =~= rs);
        }
        Ok(())
    }

    /// One-shot synchronization of the catalog with the platform's per-guild
    /// command registry. Every returned record's declared name is resolved
    /// back to a catalog variant; the merged mapping over all guilds is then
    /// installed wholesale for the guild scope. An empty guild set succeeds
    /// and installs an empty (not absent) mapping. On any failure the table
    /// is left exactly as it was: the bot never serves from an incomplete or
    /// inconsistent mapping.
    pub fn setup_guild_commands(
        &self,
        table: &mut DispatchTable,
        had_guilds: bool,
        guild_records: &Vec<Vec<CommandRecord>>,
    ) -> (r: Result<(), HandlerError>)
        ensures
            ({
                let flat = guilds_view(guild_records@);
                if had_guilds && guild_records@.len() == 0 {
                    r == Err::<(), HandlerError>(HandlerError::CommandSetup) && *final(table)
                        == *old(table)
                } else if all_names_known(flat) {
                    r is Ok && final(table).scope_map(Scope::Guild) == Some(map_of_records(flat))
                        && forall|s: Scope|
                        s != Scope::Guild ==> final(table).scope_map(s) == old(table).scope_map(s)
                } else {
                    r == Err::<(), HandlerError>(HandlerError::CommandSetup) && *final(table)
                        == *old(table)
                }
            }),
    {
        let ghost gs = guild_records@;
        if had_guilds && guild_records.len() == 0 {
            return Err(HandlerError::CommandSetup);
        }
        let mut map: HashMapWithView<u64, GuildCommands> = HashMapWithView::new();
        let mut g: usize = 0;
        while g < guild_records.len()
            invariant
                0 <= g <= guild_records.len(),
                gs == guild_records@,
                all_names_known(guilds_view(gs.take(g as int))),
                map@ == map_of_records(guilds_view(gs.take(g as int))),
            decreases guild_records.len() - g,
        {
            let ghost before = guilds_view(gs.take(g as int));
            let res = self.save_command_ids(&mut map, &guild_records[g]);
            match res {
                Ok(_) => {
                    proof {
                        assert(gs.take(g + 1 as int).drop_last() =~= gs.take(g as int));
                        assert(gs.take(g + 1 as int).last() == gs[g as int]);
                        assert(guilds_view(gs.take(g + 1 as int)) == before + records_view(
                            gs[g as int]@,
                        ));
                        lemma_extended_map_append(
                            Map::empty(),
                            before,
                            records_view(gs[g as int]@),
                        );
                        let next = guilds_view(gs.take(g + 1 as int));
                        assert forall|i: int| 0 <= i < next.len() implies variant_of_name(
                            #[trigger] next[i].1,
                        ) is Some by {
                            if i < before.len() {
                                assert(next[i] == before[i]);
                            } else {
                                assert(next[i] == records_view(gs[g as int]@)[i - before.len()]);
                            }
                        }
                        assert(all_names_known(next));
                    }
                },
                Err(_) => {
                    proof {
                        let rv = records_view(gs[g as int]@);
                        assert(!all_names_known(rv));
                        let i = choose|i: int|
                            0 <= i < rv.len() && !(variant_of_name(#[trigger] rv[i].1) is Some);
                        lemma_guilds_view_decompose(gs, g as int);
                        let flat = guilds_view(gs);
                        let pos = guilds_view(gs.take(g as int)).len() + i;
                        assert(flat[pos] == rv[i]);
                        assert(!all_names_known(flat));
                    }
                    return Err(HandlerError::CommandSetup);
                },
            }
            g += 1;
        }
        proof {
            assert(gs.take(gs.len() as int) =~= gs);
        }
        table.install(Scope::Guild, map);
        Ok(())
    }
}

/// Where a guild's record lands in the flattened view of a cycle's records.
pub open spec fn flat_position(gs: Seq<Vec<CommandRecord>>, g: int, k: int) -> int {
    guilds_view(gs.take(g)).len() + k
}

/// Law: a successful registration cycle serves every guild. For any guild
/// and any record the platform returned in it for a catalog variant,
/// looking the record's identifier up in the mapping the cycle installs
/// yields exactly that variant, provided no later record of the cycle
/// reuses the identifier.
pub proof fn lemma_cycle_registration_complete(
    gs: Seq<Vec<CommandRecord>>,
    g: int,
    k: int,
    v: GuildCommands,
)
    requires
        0 <= g < gs.len(),
        0 <= k < gs[g]@.len(),
        records_view(gs[g]@)[k].1 == v.name_spec(),
        forall|j: int|
            flat_position(gs, g, k) < j < guilds_view(gs).len() ==> (#[trigger] guilds_view(
                gs,
            )[j]).0 != records_view(gs[g]@)[k].0,
    ensures
        map_of_records(guilds_view(gs)).contains_key(records_view(gs[g]@)[k].0),
        map_of_records(guilds_view(gs))[records_view(gs[g]@)[k].0] == v,
{
    lemma_guilds_view_decompose(gs, g);
    let flat = guilds_view(gs);
    let pos = flat_position(gs, g, k);
    assert(flat[pos] == records_view(gs[g]@)[k]);
    lemma_registration_complete(flat, pos, v);
}

/// Law: registration over an empty guild set succeeds with an empty, never
/// an absent, mapping: no records flatten to nothing, every name among them
/// is vacuously known, and they induce the empty map, which is installed.
pub proof fn lemma_empty_registration()
    ensures
        guilds_view(Seq::empty()) == Seq::<(u64, Seq<char>)>::empty(),
        all_names_known(Seq::empty()),
        map_of_records(Seq::empty()) == Map::<u64, GuildCommands>::empty(),
{
}

/// Law: after a registration whose records all resolve, the identifier a
/// record carries maps to exactly the variant its declared name names,
/// provided no later record reuses that identifier.
pub proof fn lemma_registered_id_resolves(rs: Seq<(u64, Seq<char>)>, i: int)
    requires
        0 <= i < rs.len(),
        variant_of_name(rs[i].1) is Some,
        forall|j: int| i < j < rs.len() ==> rs[j].0 != rs[i].0,
    ensures
        map_of_records(rs).contains_key(rs[i].0),
        map_of_records(rs)[rs[i].0] == variant_of_name(rs[i].1)->Some_0,
    decreases rs.len(),
{
    lemma_extended_id_resolves(Map::empty(), rs, i);
}

proof fn lemma_extended_id_resolves(base: Map<u64, GuildCommands>, rs: Seq<(u64, Seq<char>)>, i: int)
    requires
        0 <= i < rs.len(),
        variant_of_name(rs[i].1) is Some,
        forall|j: int| i < j < rs.len() ==> rs[j].0 != rs[i].0,
    ensures
        extended_map(base, rs).contains_key(rs[i].0),
        extended_map(base, rs)[rs[i].0] == variant_of_name(rs[i].1)->Some_0,
    decreases rs.len(),
{
    if i == rs.len() - 1 {
    } else {
        assert(rs.drop_last()[i] == rs[i]);
        lemma_extended_id_resolves(base, rs.drop_last(), i);
        assert(rs.last() == rs[rs.len() - 1]);
        assert(rs[rs.len() - 1].0 != rs[i].0);
    }
}

/// Law: an identifier that no record of the registration carries is absent
/// from the mapping, so looking it up is rejected as unrecognized, never
/// resolved and never a panic.
pub proof fn lemma_unissued_id_absent(rs: Seq<(u64, Seq<char>)>, id: u64)
    requires
        forall|i: int| 0 <= i < rs.len() ==> (#[trigger] rs[i]).0 != id,
    ensures
        !map_of_records(rs).contains_key(id),
{
    lemma_extended_id_absent(Map::empty(), rs, id);
}

proof fn lemma_extended_id_absent(base: Map<u64, GuildCommands>, rs: Seq<(u64, Seq<char>)>, id: u64)
    requires
        !base.contains_key(id),
        forall|i: int| 0 <= i < rs.len() ==> (#[trigger] rs[i]).0 != id,
    ensures
        !extended_map(base, rs).contains_key(id),
    decreases rs.len(),
{
    if rs.len() == 0 {
    } else {
        assert(forall|i: int|
            0 <= i < rs.drop_last().len() ==> (#[trigger] rs.drop_last()[i]).0 != id);
        lemma_extended_id_absent(base, rs.drop_last(), id);
        assert(rs.last() == rs[rs.len() - 1]);
    }
}

/// Law: a successful registration cycle is complete. For any record the
/// platform returned for a catalog variant, looking the record's identifier
/// up in the installed mapping yields exactly that variant, provided no
/// later record reused the identifier.
pub proof fn lemma_registration_complete(rs: Seq<(u64, Seq<char>)>, i: int, v: GuildCommands)
    requires
        0 <= i < rs.len(),
        rs[i].1 == v.name_spec(),
        forall|j: int| i < j < rs.len() ==> rs[j].0 != rs[i].0,
    ensures
        map_of_records(rs).contains_key(rs[i].0),
        map_of_records(rs)[rs[i].0] == v,
{
    crate::commands::guild::lemma_name_round_trip(v);
    lemma_registered_id_resolves(rs, i);
}

} // verus!
