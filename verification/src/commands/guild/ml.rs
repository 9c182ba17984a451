use crate::commands::option_data::{
    and, and_desc, nand, nand_desc, nor, nor_desc, or, or_desc, xor, xor_desc,
};
use crate::commands::{
    sub_command_bare, sub_view, CommandKind, CommandSchema, CommandSchemaView, TopOption,
    TopOptionView,
};
use crate::util::LocalizedString;
use vstd::prelude::*;

verus! {

pub fn name() -> (r: LocalizedString)
    ensures
        r.en@ == "ml"@,
{
    LocalizedString { en: "ml" }
}

pub fn desc() -> (r: LocalizedString)
    ensures
        r.en@ == "Commands for Machine Learning!"@,
{
    LocalizedString { en: "Commands for Machine Learning!" }
}

/// The command that runs the toy gate-training demo. Its training itself
/// works in floating point and lives outside the verified library.
pub struct MLCmd;

impl MLCmd {
    pub fn name() -> (r: LocalizedString)
        ensures
            r.en@ == "ml"@,
    {
        name()
    }

    /// The schema the demo registers: one bare sub-command per gate.
    pub open spec fn schema_view() -> CommandSchemaView {
        CommandSchemaView {
            name: "ml"@,
            name_locale_en: None,
            description: "Commands for Machine Learning!"@,
            description_locale_en: None,
            kind: CommandKind::ChatInput,
            options: seq![
                TopOptionView::Sub(sub_view("and"@, "Train and Test AND Gate!"@, Seq::empty())),
                TopOptionView::Sub(sub_view("or"@, "Train and Test OR Gate!"@, Seq::empty())),
                TopOptionView::Sub(sub_view("nand"@, "Train and Test NAND Gate!"@, Seq::empty())),
                TopOptionView::Sub(sub_view("nor"@, "Train and Test NOR Gate!"@, Seq::empty())),
                TopOptionView::Sub(sub_view("xor"@, "Train and Test XOR Gate!"@, Seq::empty())),
            ],
        }
    }

    pub fn to_application_command() -> (r: CommandSchema)
        ensures
            r@ == Self::schema_view(),
    {
        let mut options: Vec<TopOption> = Vec::new();
        options.push(TopOption::Sub(sub_command_bare(and(), and_desc())));
        options.push(TopOption::Sub(sub_command_bare(or(), or_desc())));
        options.push(TopOption::Sub(sub_command_bare(nand(), nand_desc())));
        options.push(TopOption::Sub(sub_command_bare(nor(), nor_desc())));
        options.push(TopOption::Sub(sub_command_bare(xor(), xor_desc())));
        proof {
            assert(options@.map_values(|o: TopOption| o@) =~= Self::schema_view().options);
        }
        CommandSchema {
            name: String::from_str(name().en),
            name_locale_en: None,
            description: String::from_str(desc().en),
            description_locale_en: None,
            kind: CommandKind::ChatInput,
            options: options,
        }
    }
}

/// The title of the demo's reply embed for one selected gate.
pub fn ml_embed_title(embed_type: &str) -> (r: String)
    ensures
        r@ == "ML ("@ + embed_type@ + ")"@,
{
    String::from_str("ML (").concat(embed_type).concat(")")
}

/// The gates the demo can be asked to train.
#[derive(Debug, Clone, Copy, PartialEq, Eq, Structural)]
pub enum MLPropertyTypes {
    And,
    Or,
    Nand,
    Nor,
    Xor,
}

/// The logic function a raw sub-command name selects, if any.
pub open spec fn ml_property_of_name(s: Seq<char>) -> Option<MLPropertyTypes> {
    if s == "and"@ {
        Some(MLPropertyTypes::And)
    } else if s == "or"@ {
        Some(MLPropertyTypes::Or)
    } else if s == "nand"@ {
        Some(MLPropertyTypes::Nand)
    } else if s == "nor"@ {
        Some(MLPropertyTypes::Nor)
    } else if s == "xor"@ {
        Some(MLPropertyTypes::Xor)
    } else {
        None
    }
}

impl MLPropertyTypes {
    pub fn from_name(s: &str) -> (r: Result<MLPropertyTypes, ()>)
        ensures
            match ml_property_of_name(s@) {
                Some(v) => r == Ok::<MLPropertyTypes, ()>(v),
                None => r is Err,
            },
    {
        if crate::util::str_eq(s, "and") {
            Ok(MLPropertyTypes::And)
        } else if crate::util::str_eq(s, "or") {
            Ok(MLPropertyTypes::Or)
        } else if crate::util::str_eq(s, "nand") {
            Ok(MLPropertyTypes::Nand)
        } else if crate::util::str_eq(s, "nor") {
            Ok(MLPropertyTypes::Nor)
        } else if crate::util::str_eq(s, "xor") {
            Ok(MLPropertyTypes::Xor)
        } else {
            Err(())
        }
    }
}

} // verus!
