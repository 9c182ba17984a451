pub mod guild;
pub mod option_data;
pub mod stats;

use crate::util::LocalizedString;
use vstd::prelude::*;

verus! {

/// The scopes under which command sets are registered. Each scope owns one
/// slot of the dispatch table.
#[derive(Debug, Clone, Copy, PartialEq, Eq, Structural)]
pub enum Scope {
    Guild,
}

/// The kind tag of a registered command; only chat-input commands exist here.
#[derive(Debug, Clone, Copy, PartialEq, Eq, Structural)]
pub enum CommandKind {
    ChatInput,
}

/// The kind of a typed leaf parameter.
#[derive(Debug, Clone, Copy, PartialEq, Eq, Structural)]
pub enum LeafOptionKind {
    Text,
    Channel,
}

/// A typed leaf parameter of a command: the innermost level of the option
/// tree the platform accepts.
pub struct LeafOption {
    pub kind: LeafOptionKind,
    pub name: String,
    pub name_locale_en: Option<String>,
    pub description: String,
    pub description_locale_en: Option<String>,
}

/// A sub-command: the middle level of the option tree; it nests only leaves.
pub struct SubCommandOption {
    pub name: String,
    pub name_locale_en: Option<String>,
    pub description: String,
    pub description_locale_en: Option<String>,
    pub options: Vec<LeafOption>,
}

/// A sub-command group: the outermost option level; it nests only
/// sub-commands, so the platform's three levels of nesting are the most
/// these types can express.
pub struct SubCommandGroupOption {
    pub name: String,
    pub name_locale_en: Option<String>,
    pub description: String,
    pub description_locale_en: Option<String>,
    pub options: Vec<SubCommandOption>,
}

/// A top-level option of a command: a sub-command or a group of them.
pub enum TopOption {
    Sub(SubCommandOption),
    Group(SubCommandGroupOption),
}

/// The wire-format description of one command, sent to the platform when a
/// guild's command set is registered. Immutable after construction.
pub struct CommandSchema {
    pub name: String,
    pub name_locale_en: Option<String>,
    pub description: String,
    pub description_locale_en: Option<String>,
    pub kind: CommandKind,
    pub options: Vec<TopOption>,
}

pub struct LeafOptionView {
    pub kind: LeafOptionKind,
    pub name: Seq<char>,
    pub name_locale_en: Option<Seq<char>>,
    pub description: Seq<char>,
    pub description_locale_en: Option<Seq<char>>,
}

pub struct SubCommandOptionView {
    pub name: Seq<char>,
    pub name_locale_en: Option<Seq<char>>,
    pub description: Seq<char>,
    pub description_locale_en: Option<Seq<char>>,
    pub options: Seq<LeafOptionView>,
}

pub struct SubCommandGroupOptionView {
    pub name: Seq<char>,
    pub name_locale_en: Option<Seq<char>>,
    pub description: Seq<char>,
    pub description_locale_en: Option<Seq<char>>,
    pub options: Seq<SubCommandOptionView>,
}

pub enum TopOptionView {
    Sub(SubCommandOptionView),
    Group(SubCommandGroupOptionView),
}

pub struct CommandSchemaView {
    pub name: Seq<char>,
    pub name_locale_en: Option<Seq<char>>,
    pub description: Seq<char>,
    pub description_locale_en: Option<Seq<char>>,
    pub kind: CommandKind,
    pub options: Seq<TopOptionView>,
}

pub open spec fn view_of_opt_string(s: Option<String>) -> Option<Seq<char>> {
    match s {
        Some(t) => Some(t@),
        None => None,
    }
}

impl View for LeafOption {
    type V = LeafOptionView;

    open spec fn view(&self) -> LeafOptionView {
        LeafOptionView {
            kind: self.kind,
            name: self.name@,
            name_locale_en: view_of_opt_string(self.name_locale_en),
            description: self.description@,
            description_locale_en: view_of_opt_string(self.description_locale_en),
        }
    }
}

impl View for SubCommandOption {
    type V = SubCommandOptionView;

    open spec fn view(&self) -> SubCommandOptionView {
        SubCommandOptionView {
            name: self.name@,
            name_locale_en: view_of_opt_string(self.name_locale_en),
            description: self.description@,
            description_locale_en: view_of_opt_string(self.description_locale_en),
            options: self.options@.map_values(|o: LeafOption| o@),
        }
    }
}

impl View for SubCommandGroupOption {
    type V = SubCommandGroupOptionView;

    open spec fn view(&self) -> SubCommandGroupOptionView {
        SubCommandGroupOptionView {
            name: self.name@,
            name_locale_en: view_of_opt_string(self.name_locale_en),
            description: self.description@,
            description_locale_en: view_of_opt_string(self.description_locale_en),
            options: self.options@.map_values(|o: SubCommandOption| o@),
        }
    }
}

impl View for TopOption {
    type V = TopOptionView;

    open spec fn view(&self) -> TopOptionView {
        match self {
            TopOption::Sub(s) => TopOptionView::Sub(s@),
            TopOption::Group(g) => TopOptionView::Group(g@),
        }
    }
}

impl View for CommandSchema {
    type V = CommandSchemaView;

    open spec fn view(&self) -> CommandSchemaView {
        CommandSchemaView {
            name: self.name@,
            name_locale_en: view_of_opt_string(self.name_locale_en),
            description: self.description@,
            description_locale_en: view_of_opt_string(self.description_locale_en),
            kind: self.kind,
            options: self.options@.map_values(|o: TopOption| o@),
        }
    }
}

/// The view of a leaf without localizations, as every catalog builder
/// writes its leaves.
pub open spec fn leaf_view(kind: LeafOptionKind, name: Seq<char>, desc: Seq<char>) -> LeafOptionView {
    LeafOptionView {
        kind: kind,
        name: name,
        name_locale_en: None,
        description: desc,
        description_locale_en: None,
    }
}

/// The view of a sub-command without localizations.
pub open spec fn sub_view(name: Seq<char>, desc: Seq<char>, options: Seq<LeafOptionView>) -> SubCommandOptionView {
    SubCommandOptionView {
        name: name,
        name_locale_en: None,
        description: desc,
        description_locale_en: None,
        options: options,
    }
}

/// The view of a sub-command group without localizations.
pub open spec fn group_view(name: Seq<char>, desc: Seq<char>, options: Seq<SubCommandOptionView>) -> SubCommandGroupOptionView {
    SubCommandGroupOptionView {
        name: name,
        name_locale_en: None,
        description: desc,
        description_locale_en: None,
        options: options,
    }
}

/// Builds a leaf parameter from a name and a description.
pub fn leaf(kind: LeafOptionKind, name: LocalizedString, desc: LocalizedString) -> (r: LeafOption)
    ensures
        r@ == leaf_view(kind, name.en@, desc.en@),
{
    LeafOption {
        kind: kind,
        name: String::from_str(name.en),
        name_locale_en: None,
        description: String::from_str(desc.en),
        description_locale_en: None,
    }
}

/// Builds a sub-command from a name, a description and its leaves.
pub fn sub_command(name: LocalizedString, desc: LocalizedString, options: Vec<LeafOption>) -> (r: SubCommandOption)
    ensures
        r@ == sub_view(name.en@, desc.en@, options@.map_values(|o: LeafOption| o@)),
{
    SubCommandOption {
        name: String::from_str(name.en),
        name_locale_en: None,
        description: String::from_str(desc.en),
        description_locale_en: None,
        options: options,
    }
}

/// Builds a sub-command without parameters.
pub fn sub_command_bare(name: LocalizedString, desc: LocalizedString) -> (r: SubCommandOption)
    ensures
        r@ == sub_view(name.en@, desc.en@, Seq::empty()),
{
    let leaves: Vec<LeafOption> = Vec::new();
    let r = sub_command(name, desc, leaves);
    proof {
        assert(r@.options =~= Seq::<LeafOptionView>::empty());
        assert(r@ == sub_view(name.en@, desc.en@, Seq::empty()));
    }
    r
}

/// Builds a sub-command with a single parameter.
pub fn sub_command_one(name: LocalizedString, desc: LocalizedString, l: LeafOption) -> (r:
    SubCommandOption)
    ensures
        r@ == sub_view(name.en@, desc.en@, seq![l@]),
{
    let ghost lv = l@;
    let mut leaves: Vec<LeafOption> = Vec::new();
    leaves.push(l);
    let r = sub_command(name, desc, leaves);
    proof {
        assert(r@.options =~= seq![lv]);
        assert(r@ == sub_view(name.en@, desc.en@, seq![lv]));
    }
    r
}

/// Builds a sub-command group from a name, a description and its
/// sub-commands.
pub fn group(name: LocalizedString, desc: LocalizedString, options: Vec<SubCommandOption>) -> (r: SubCommandGroupOption)
    ensures
        r@ == group_view(name.en@, desc.en@, options@.map_values(|o: SubCommandOption| o@)),
{
    SubCommandGroupOption {
        name: String::from_str(name.en),
        name_locale_en: None,
        description: String::from_str(desc.en),
        description_locale_en: None,
        options: options,
    }
}

/// Naming and describing a command schema in every locale.
pub trait CreateApplicationCommandExt: Sized {
    /// Relates a value to the result of giving it the name in every locale.
    spec fn named(self, s: LocalizedString, r: Self) -> bool;

    /// Relates a value to the result of giving it the description in every
    /// locale.
    spec fn described(self, s: LocalizedString, r: Self) -> bool;

    fn localized_name(self, s: LocalizedString) -> (r: Self)
        ensures
            self.named(s, r),
    ;

    fn localized_desc(self, s: LocalizedString) -> (r: Self)
        ensures
            self.described(s, r),
    ;
}

impl CreateApplicationCommandExt for CommandSchema {
    open spec fn named(self, s: LocalizedString, r: Self) -> bool {
        r@ == CommandSchemaView { name: s.en@, name_locale_en: Some(s.en@), ..self@ }
    }

    open spec fn described(self, s: LocalizedString, r: Self) -> bool {
        r@ == CommandSchemaView {
            description: s.en@,
            description_locale_en: Some(s.en@),
            ..self@
        }
    }

    fn localized_name(self, s: LocalizedString) -> (r: Self) {
        CommandSchema {
            name: String::from_str(s.en),
            name_locale_en: Some(String::from_str(s.en)),
            ..self
        }
    }

    fn localized_desc(self, s: LocalizedString) -> (r: Self) {
        CommandSchema {
            description: String::from_str(s.en),
            description_locale_en: Some(String::from_str(s.en)),
            ..self
        }
    }
}

/// Naming and describing a command option in every locale.
pub trait CreateApplicationCommandOptionExt: Sized {
    /// Relates a value to the result of giving it the name in every locale.
    spec fn named(self, s: LocalizedString, r: Self) -> bool;

    /// Relates a value to the result of giving it the description in every
    /// locale.
    spec fn described(self, s: LocalizedString, r: Self) -> bool;

    fn localized_name(self, s: LocalizedString) -> (r: Self)
        ensures
            self.named(s, r),
    ;

    fn localized_desc(self, s: LocalizedString) -> (r: Self)
        ensures
            self.described(s, r),
    ;
}

impl CreateApplicationCommandOptionExt for LeafOption {
    open spec fn named(self, s: LocalizedString, r: Self) -> bool {
        r@ == LeafOptionView { name: s.en@, name_locale_en: Some(s.en@), ..self@ }
    }

    open spec fn described(self, s: LocalizedString, r: Self) -> bool {
        r@ == LeafOptionView {
            description: s.en@,
            description_locale_en: Some(s.en@),
            ..self@
        }
    }

    fn localized_name(self, s: LocalizedString) -> (r: Self) {
        LeafOption {
            name: String::from_str(s.en),
            name_locale_en: Some(String::from_str(s.en)),
            ..self
        }
    }

    fn localized_desc(self, s: LocalizedString) -> (r: Self) {
        LeafOption {
            description: String::from_str(s.en),
            description_locale_en: Some(String::from_str(s.en)),
            ..self
        }
    }
}

impl CreateApplicationCommandOptionExt for SubCommandOption {
    open spec fn named(self, s: LocalizedString, r: Self) -> bool {
        r@ == SubCommandOptionView { name: s.en@, name_locale_en: Some(s.en@), ..self@ }
    }

    open spec fn described(self, s: LocalizedString, r: Self) -> bool {
        r@ == SubCommandOptionView {
            description: s.en@,
            description_locale_en: Some(s.en@),
            ..self@
        }
    }

    fn localized_name(self, s: LocalizedString) -> (r: Self) {
        SubCommandOption {
            name: String::from_str(s.en),
            name_locale_en: Some(String::from_str(s.en)),
            ..self
        }
    }

    fn localized_desc(self, s: LocalizedString) -> (r: Self) {
        SubCommandOption {
            description: String::from_str(s.en),
            description_locale_en: Some(String::from_str(s.en)),
            ..self
        }
    }
}

} // verus!
