use crate::builders::embed::{EmbedFieldData, EmbedFieldView};
use crate::util::{dec_of, join_strings, joined, u64_to_dec};
use vstd::prelude::*;

verus! {

/// The mention text for one role.
pub open spec fn role_mention(id: u64) -> Seq<char> {
    "<@&"@ + dec_of(id as nat) + ">"@
}

pub open spec fn role_mentions(roles: Seq<u64>) -> Seq<Seq<char>> {
    roles.map_values(|id: u64| role_mention(id))
}

fn role_mention_strings(roles: &Vec<u64>) -> (r: Vec<String>)
    ensures
        r@.map_values(|s: String| s@) == role_mentions(roles@),
{
    let mut r: Vec<String> = Vec::new();
    let mut i: usize = 0;
    while i < roles.len()
        invariant
            0 <= i <= roles.len(),
            r@.map_values(|s: String| s@) == role_mentions(roles@.take(i as int)),
        decreases roles.len() - i,
    {
        let ghost before = r@.map_values(|s: String| s@);
        let mention = String::from_str("<@&").concat(u64_to_dec(roles[i]).as_str()).concat(">");
        r.push(mention);
        proof {
            assert(r@.map_values(|s: String| s@) =~= before.push(role_mention(roles@[i as int])));
            assert(role_mentions(roles@.take(i + 1 as int)) =~= before.push(
                role_mention(roles@[i as int]),
            ));
        }
        i += 1;
    }
    proof {
        assert(roles@.take(roles@.len() as int) =~= roles@);
    }
    r
}

/// The role list as mention text, separated by bars.
pub fn roles_to_text(roles: &Vec<u64>) -> (r: String)
    ensures
        r@ == joined(role_mentions(roles@), " | "@),
{
    let mentions = role_mention_strings(roles);
    join_strings(&mentions, " | ")
}

/// The embed field that lists a set of roles, with their count in the name.
pub open spec fn roles_field_view(roles: Seq<u64>, inline: Option<bool>) -> EmbedFieldView {
    EmbedFieldView {
        name: "**Roles (``"@ + dec_of(roles.len()) + "``)**"@,
        value: joined(role_mentions(roles), " ``|`` "@),
        inline: match inline {
            Some(b) => b,
            None => false,
        },
    }
}

/// Builds the embed field that lists a set of roles.
pub fn roles_to_field(roles: &Vec<u64>, inline: Option<bool>) -> (r: EmbedFieldData)
    ensures
        r@ == roles_field_view(roles@, inline),
{
    let count = roles.len();
    let name = String::from_str("**Roles (``").concat(u64_to_dec(count as u64).as_str()).concat(
        "``)**",
    );
    let mentions = role_mention_strings(roles);
    let value = join_strings(&mentions, " ``|`` ");
    EmbedFieldData {
        name: name,
        value: value,
        inline: match inline {
            Some(b) => b,
            None => false,
        },
    }
}

} // verus!
