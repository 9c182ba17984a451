use vstd::prelude::*;

verus! {

/// The red used for error embeds.
pub const COLOR_RED: u32 = 0xE74C3C;

/// One titled field of a reply embed.
pub struct EmbedFieldData {
    pub name: String,
    pub value: String,
    pub inline: bool,
}

pub struct EmbedFieldView {
    pub name: Seq<char>,
    pub value: Seq<char>,
    pub inline: bool,
}

impl View for EmbedFieldData {
    type V = EmbedFieldView;

    open spec fn view(&self) -> EmbedFieldView {
        EmbedFieldView { name: self.name@, value: self.value@, inline: self.inline }
    }
}

/// A reply embed, as the handlers assemble it: everything the platform
/// renders is carried as plain text.
pub struct EmbedData {
    pub title: Option<String>,
    pub description: Option<String>,
    pub thumbnail: Option<String>,
    pub image: Option<String>,
    pub color: Option<u32>,
    pub fields: Vec<EmbedFieldData>,
}

pub struct EmbedView {
    pub title: Option<Seq<char>>,
    pub description: Option<Seq<char>>,
    pub thumbnail: Option<Seq<char>>,
    pub image: Option<Seq<char>>,
    pub color: Option<u32>,
    pub fields: Seq<EmbedFieldView>,
}

pub open spec fn opt_view(s: Option<String>) -> Option<Seq<char>> {
    match s {
        Some(t) => Some(t@),
        None => None,
    }
}

impl View for EmbedData {
    type V = EmbedView;

    open spec fn view(&self) -> EmbedView {
        EmbedView {
            title: opt_view(self.title),
            description: opt_view(self.description),
            thumbnail: opt_view(self.thumbnail),
            image: opt_view(self.image),
            color: self.color,
            fields: self.fields@.map_values(|f: EmbedFieldData| f@),
        }
    }
}

/// An embed with nothing set.
pub open spec fn empty_embed() -> EmbedView {
    EmbedView {
        title: None,
        description: None,
        thumbnail: None,
        image: None,
        color: None,
        fields: Seq::empty(),
    }
}

impl EmbedView {
    pub open spec fn with_title(self, t: Seq<char>) -> EmbedView {
        EmbedView { title: Some(t), ..self }
    }

    pub open spec fn with_description(self, d: Seq<char>) -> EmbedView {
        EmbedView { description: Some(d), ..self }
    }

    pub open spec fn with_thumbnail(self, u: Seq<char>) -> EmbedView {
        EmbedView { thumbnail: Some(u), ..self }
    }

    pub open spec fn with_image(self, u: Seq<char>) -> EmbedView {
        EmbedView { image: Some(u), ..self }
    }

    pub open spec fn with_color(self, c: u32) -> EmbedView {
        EmbedView { color: Some(c), ..self }
    }

    pub open spec fn with_field_view(self, f: EmbedFieldView) -> EmbedView {
        EmbedView { fields: self.fields.push(f), ..self }
    }

    pub open spec fn with_field(self, name: Seq<char>, value: Seq<char>, inline: bool) -> EmbedView {
        self.with_field_view(EmbedFieldView { name: name, value: value, inline: inline })
    }
}

impl EmbedData {
    pub fn new() -> (r: EmbedData)
        ensures
            r@ == empty_embed(),
    {
        let r = EmbedData {
            title: None,
            description: None,
            thumbnail: None,
            image: None,
            color: None,
            fields: Vec::new(),
        };
        proof {
            assert(r@.fields =~= empty_embed().fields);
        }
        r
    }

    pub fn title(&mut self, t: String)
        ensures
            final(self)@ == old(self)@.with_title(t@),
    {
        self.title = Some(t);
    }

    pub fn description(&mut self, d: String)
        ensures
            final(self)@ == old(self)@.with_description(d@),
    {
        self.description = Some(d);
    }

    pub fn thumbnail(&mut self, u: String)
        ensures
            final(self)@ == old(self)@.with_thumbnail(u@),
    {
        self.thumbnail = Some(u);
    }

    pub fn image(&mut self, u: String)
        ensures
            final(self)@ == old(self)@.with_image(u@),
    {
        self.image = Some(u);
    }

    pub fn color(&mut self, c: u32)
        ensures
            final(self)@ == old(self)@.with_color(c),
    {
        self.color = Some(c);
    }

    pub fn field(&mut self, name: String, value: String, inline: bool)
        ensures
            final(self)@ == old(self)@.with_field(name@, value@, inline),
    {
        let ghost before = self@;
        let f = EmbedFieldData { name: name, value: value, inline: inline };
        self.fields.push(f);
        proof {
            assert(self@.fields =~= before.fields.push(f@));
        }
    }

    pub fn add_field(&mut self, f: EmbedFieldData)
        ensures
            final(self)@ == old(self)@.with_field_view(f@),
    {
        let ghost before = self@;
        self.fields.push(f);
        proof {
            assert(self@.fields =~= before.fields.push(f@));
        }
    }
}

} // verus!
