//! Section-based configuration documents, and the traits through which a
//! typed record is read from its section and written back to it.

use vstd::prelude::*;
use ini::{Ini, Properties};

verus! {

#[verifier::external_type_specification]
#[verifier::external_body]
pub struct ExIni(Ini);

#[verifier::external_type_specification]
#[verifier::external_body]
pub struct ExProperties(Properties);

/// The named sections of a document: for each section name, the entries
/// of the first section with that name.
pub uninterp spec fn document_sections(doc: Ini) -> Map<Seq<char>, Map<Seq<char>, Seq<char>>>;

/// The entries of a section: each key with its first value.
pub uninterp spec fn section_entries(props: Properties) -> Map<Seq<char>, Seq<char>>;

/// The sections of a document.
pub type Sections = Map<Seq<char>, Map<Seq<char>, Seq<char>>>;

/// The entries of one section.
pub type Entries = Map<Seq<char>, Seq<char>>;

/// The value of `key`, if the entries hold it.
pub open spec fn lookup(entries: Entries, key: Seq<char>) -> Option<Seq<char>> {
    if entries.contains_key(key) {
        Some(entries[key])
    } else {
        None
    }
}

/// The entries of the section `name`, none if it is missing.
pub open spec fn section_or_empty(sections: Sections, name: Seq<char>) -> Entries {
    if sections.contains_key(name) {
        sections[name]
    } else {
        Map::empty()
    }
}

/// Sets `key` to `value` in section `name`, creating the section if needed.
pub open spec fn set_in(sections: Sections, name: Seq<char>, key: Seq<char>, value: Seq<char>) -> Sections {
    sections.insert(name, section_or_empty(sections, name).insert(key, value))
}

/// The view of an ordered list of written entries.
pub open spec fn pairs_view(pairs: Seq<(String, String)>) -> Seq<(Seq<char>, Seq<char>)> {
    pairs.map_values(|p: (String, String)| (p.0@, p.1@))
}

/// Entries set one after the other, in order.
pub open spec fn apply_entries(entries: Entries, pairs: Seq<(Seq<char>, Seq<char>)>) -> Entries
    decreases pairs.len(),
{
    if pairs.len() == 0 {
        entries
    } else {
        apply_entries(entries, pairs.drop_last()).insert(pairs.last().0, pairs.last().1)
    }
}

/// A document after the pairs have been set, in order, in section `name`.
pub open spec fn write_section(sections: Sections, name: Seq<char>, pairs: Seq<(Seq<char>, Seq<char>)>) -> Sections
    decreases pairs.len(),
{
    if pairs.len() == 0 {
        sections
    } else {
        set_in(write_section(sections, name, pairs.drop_last()), name, pairs.last().0, pairs.last().1)
    }
}

/// Relies on `Ini::section`: the first section with the given name, if any.
#[verifier::external_body]
pub(crate) fn find_section<'a>(doc: &'a Ini, name: &str) -> (r: Option<&'a Properties>)
    ensures
        r is Some <==> document_sections(*doc).contains_key(name@),
        r matches Some(p) ==> section_entries(*p) == document_sections(*doc)[name@],
{
    doc.section(Some(name))
}

/// Relies on `Properties::get`: the first value of the key, if any.
#[verifier::external_body]
pub(crate) fn find_entry<'a>(props: &'a Properties, key: &str) -> (r: Option<&'a str>)
    ensures
        r is Some <==> section_entries(*props).contains_key(key@),
        r matches Some(v) ==> v@ == section_entries(*props)[key@],
{
    props.get(key)
}

/// Relies on `Ini::set_to`: it replaces every value of the key in the first
/// section with that name, creating the section when there is none, and
/// leaves the other sections alone.
#[verifier::external_body]
pub(crate) fn set_entry(doc: &mut Ini, name: &str, key: &str, value: String)
    ensures
        document_sections(*final(doc)) == set_in(document_sections(*old(doc)), name@, key@, value@),
{
    doc.set_to(Some(name), key.to_owned(), value)
}

/// Sets each pair, in order, in section `name`.
pub fn write_pairs(doc: &mut Ini, name: &str, pairs: &Vec<(String, String)>)
    ensures
        document_sections(*final(doc)) == write_section(document_sections(*old(doc)), name@, pairs_view(pairs@)),
{
    let mut i: usize = 0;
    while i < pairs.len()
        invariant
            i <= pairs@.len(),
            document_sections(*doc) == write_section(
                document_sections(*old(doc)),
                name@,
                pairs_view(pairs@).take(i as int),
            ),
        decreases pairs@.len() - i,
    {
        let key = &pairs[i].0;
        let value = pairs[i].1.clone();
        set_entry(doc, name, key.as_str(), value);
        proof {
            let done = pairs_view(pairs@).take(i + 1);
            assert(done.drop_last() =~= pairs_view(pairs@).take(i as int));
        }
        i = i + 1;
    }
    assert(pairs_view(pairs@).take(pairs@.len() as int) =~= pairs_view(pairs@));
}

/// Setting two lists of pairs one after the other is setting their
/// concatenation.
pub proof fn lemma_apply_entries_concat(entries: Entries, first: Seq<(Seq<char>, Seq<char>)>, second: Seq<(Seq<char>, Seq<char>)>)
    ensures
        apply_entries(entries, first + second) == apply_entries(apply_entries(entries, first), second),
    decreases second.len(),
{
    if second.len() == 0 {
        assert(first + second =~= first);
    } else {
        lemma_apply_entries_concat(entries, first, second.drop_last());
        assert((first + second).drop_last() =~= first + second.drop_last());
        assert((first + second).last() == second.last());
    }
}

/// Writing a nonempty list of pairs leaves section `name` holding the old
/// entries with the pairs set over them in order.
pub proof fn lemma_write_section(sections: Sections, name: Seq<char>, pairs: Seq<(Seq<char>, Seq<char>)>)
    requires
        pairs.len() > 0,
    ensures
        write_section(sections, name, pairs).contains_key(name),
        write_section(sections, name, pairs)[name] == apply_entries(section_or_empty(sections, name), pairs),
    decreases pairs.len(),
{
    if pairs.len() > 1 {
        lemma_write_section(sections, name, pairs.drop_last());
    } else {
        let rest = pairs.drop_last();
        assert(rest.len() == 0);
        assert(write_section(sections, name, rest) == sections);
        assert(apply_entries(section_or_empty(sections, name), rest) == section_or_empty(sections, name));
    }
}

/// Writing pairs to section `name` leaves every other section as it was.
pub proof fn lemma_write_section_other(
    sections: Sections,
    name: Seq<char>,
    pairs: Seq<(Seq<char>, Seq<char>)>,
    other: Seq<char>,
)
    requires
        other != name,
    ensures
        write_section(sections, name, pairs).contains_key(other) == sections.contains_key(other),
        sections.contains_key(other) ==> write_section(sections, name, pairs)[other] == sections[other],
    decreases pairs.len(),
{
    if pairs.len() > 0 {
        lemma_write_section_other(sections, name, pairs.drop_last(), other);
    }
}

/// A record stored in one named section of a document.
pub trait IniConfig: Sized {
    /// The name of the record's section.
    spec fn section_name() -> Seq<char>;

    /// The record that a section holding these entries gives.
    spec fn from_entries(entries: Entries) -> Self;

    fn section() -> (r: &'static str)
        ensures
            r@ == Self::section_name(),
    ;

    /// Reads every field from its key in the section.
    fn read_body(props: &Properties) -> (r: Self)
        ensures
            r == Self::from_entries(section_entries(*props)),
    ;

    /// Reads the record from its section; `None` when the document has no
    /// such section.
    fn read(ini: &Ini) -> (r: Option<Self>)
        ensures
            r is Some <==> document_sections(*ini).contains_key(Self::section_name()),
            r matches Some(c) ==> c == Self::from_entries(document_sections(*ini)[Self::section_name()]),
    {
        match find_section(ini, Self::section()) {
            Some(props) => Some(Self::read_body(props)),
            None => None,
        }
    }
}

/// A record that writes its own fields, and nothing more, to its section.
pub trait IniConfigWrite: IniConfig {
    /// The entries that the record's fields are written as, in order.
    spec fn body_entries(&self) -> Seq<(Seq<char>, Seq<char>)>;

    fn write_body(&self) -> (r: Vec<(String, String)>)
        ensures
            pairs_view(r@) == self.body_entries(),
    ;

    /// Writes every field to the record's section.
    fn write(&self, ini: &mut Ini)
        ensures
            document_sections(*final(ini)) == write_section(
                document_sections(*old(ini)),
                Self::section_name(),
                self.body_entries(),
            ),
    {
        let pairs = self.write_body();
        write_pairs(ini, Self::section(), &pairs);
    }
}

/// A record whose section also receives entries derived from another
/// record, its context, written after its own fields.
pub trait IniConfigWriteCtx: IniConfig {
    type Context;

    /// The entries that the record's fields are written as, in order.
    spec fn body_entries(&self) -> Seq<(Seq<char>, Seq<char>)>;

    /// The entries derived from the context, in order.
    spec fn additional_entries(add: &Self::Context) -> Seq<(Seq<char>, Seq<char>)>;

    fn write_body(&self) -> (r: Vec<(String, String)>)
        ensures
            pairs_view(r@) == self.body_entries(),
    ;

    fn write_additional(add: &Self::Context) -> (r: Vec<(String, String)>)
        ensures
            pairs_view(r@) == Self::additional_entries(add),
    ;

    /// Writes every field, then the derived entries, to the record's section.
    fn write(&self, ctx: &Self::Context, ini: &mut Ini)
        ensures
            document_sections(*final(ini)) == write_section(
                write_section(document_sections(*old(ini)), Self::section_name(), self.body_entries()),
                Self::section_name(),
                Self::additional_entries(ctx),
            ),
    {
        let body = self.write_body();
        write_pairs(ini, Self::section(), &body);
        let additional = Self::write_additional(ctx);
        write_pairs(ini, Self::section(), &additional);
    }
}

} // verus!
