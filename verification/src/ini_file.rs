//! The primary settings file as an INI document.
//!
//! Parsing and writing belong to the `ini` crate. What this module knows of
//! them is stated on the calls below and believed without proof.

use ini::Ini;
use ini::LineSeparator;
use ini::ParseError;
use ini::WriteOption;
use vstd::prelude::*;

verus! {

/// `ini::Ini`, a parsed document.
#[verifier::external_type_specification]
#[verifier::external_body]
pub struct ExIni(ini::Ini);

/// `ini::ParseError`, why a text is no document.
#[verifier::external_type_specification]
#[verifier::external_body]
pub struct ExParseError(ini::ParseError);

/// `std::io::Error`, why a document could not be written.
#[verifier::external_type_specification]
#[verifier::external_body]
pub struct ExIoError(std::io::Error);

/// One property: its key and its value.
pub type PropertyModel = (Seq<char>, Seq<char>);

/// One section: its name, `None` for the section without a name, and its
/// properties in order.
pub type SectionModel = (Option<Seq<char>>, Seq<PropertyModel>);

/// How lines end in a document that is written out.
#[derive(Debug, Clone, Copy, PartialEq, Eq, Structural)]
pub enum LineEnd {
    /// A line feed.
    Lf,
    /// A carriage return and a line feed.
    CrLf,
}

/// What a document holds: its sections in order.
pub uninterp spec fn ini_sections(document: Ini) -> Seq<SectionModel>;

/// What `ini::Ini::load_from_str` makes of a text: `None` where it refuses
/// the text, else what the document holds.
pub uninterp spec fn ini_parsed(text: Seq<char>) -> Option<Seq<SectionModel>>;

/// The bytes that `ini::Ini::write_to_opt` writes for a document with these
/// sections and this line end, with the other options as they are by default.
pub uninterp spec fn ini_written(sections: Seq<SectionModel>, end: LineEnd) -> Seq<u8>;

/// The position of the first section at or after `from` that carries the
/// name.
pub open spec fn section_from(sections: Seq<SectionModel>, name: Seq<char>, from: int) -> Option<
    int,
>
    decreases sections.len() - from,
{
    if from < 0 || from >= sections.len() {
        None
    } else if sections[from].0 == Some(name) {
        Some(from)
    } else {
        section_from(sections, name, from + 1)
    }
}

/// The test that keeps every property but those with the key.
pub open spec fn keeps(key: Seq<char>) -> spec_fn(PropertyModel) -> bool {
    |property: PropertyModel| property.0 != key
}

/// The document without a key in a section: in the first section of that
/// name every property with that key is gone, and all else stays as it is
/// and where it is.
pub open spec fn spec_delete(sections: Seq<SectionModel>, name: Seq<char>, key: Seq<char>) -> Seq<
    SectionModel,
> {
    match section_from(sections, name, 0) {
        Some(at) => sections.update(
            at,
            (sections[at].0, sections[at].1.filter(keeps(key))),
        ),
        None => sections,
    }
}

/// The document without the window size: the keys `Width` and `Height` of
/// the section `General` are gone.
pub open spec fn spec_without_resolution(sections: Seq<SectionModel>) -> Seq<SectionModel> {
    spec_delete(spec_delete(sections, "General"@, "Width"@), "General"@, "Height"@)
}

/// Calls `ini::Ini::load_from_str`. What comes of a text depends on the
/// text alone.
#[verifier::external_body]
fn parse(text: &str) -> (parsed: Result<Ini, ParseError>)
    ensures
        match parsed {
            Ok(document) => ini_parsed(text@) == Some(ini_sections(document)),
            Err(_) => ini_parsed(text@) is None,
        },
{
    Ini::load_from_str(text)
}

/// Calls `ini::Ini::delete_from`. In the first section of the given name
/// every property with the given key is removed; nothing else changes.
#[verifier::external_body]
fn delete_from(document: &mut Ini, section: &str, key: &str)
    ensures
        ini_sections(*final(document)) == spec_delete(
            ini_sections(*old(document)),
            section@,
            key@,
        ),
{
    document.delete_from(Some(section), key);
}

/// Calls `ini::Ini::write_to_opt` on an empty buffer, with the given line
/// end and the other options as they are by default, and hands the buffer
/// out. What is written depends on the document and the line end alone.
#[verifier::external_body]
fn render(document: &Ini, end: LineEnd) -> (rendered: Result<Vec<u8>, std::io::Error>)
    ensures
        rendered matches Ok(bytes) ==> bytes@ == ini_written(ini_sections(*document), end),
{
    let line_separator = match end {
        LineEnd::Lf => LineSeparator::CR,
        LineEnd::CrLf => LineSeparator::CRLF,
    };
    let mut buffer = Vec::new();
    document.write_to_opt(&mut buffer, WriteOption { line_separator, ..Default::default() })?;
    Ok(buffer)
}

/// Why the resolution could not be reset.
#[derive(Debug, Clone, Copy, PartialEq, Eq, Structural)]
pub enum IniError {
    /// The text is no INI document.
    Parse,
    /// The document could not be written out.
    Io,
}

/// What [`without_resolution`] gives for a text that is a document.
pub open spec fn spec_reset_text(text: Seq<char>, end: LineEnd) -> Seq<u8> {
    ini_written(spec_without_resolution(ini_parsed(text)->0), end)
}

/// The settings text with the window size taken out: the keys `Width` and
/// `Height` of the section `General` are deleted and the document is written
/// out again, with the given line end. Fails with [`IniError::Parse`]
/// exactly for the texts that the parser refuses.
pub fn without_resolution(text: &str, end: LineEnd) -> (reset: Result<Vec<u8>, IniError>)
    ensures
        match reset {
            Ok(bytes) => ini_parsed(text@) is Some && bytes@ == spec_reset_text(text@, end),
            Err(IniError::Parse) => ini_parsed(text@) is None,
            Err(IniError::Io) => ini_parsed(text@) is Some,
        },
{
    match parse(text) {
        Err(_) => Err(IniError::Parse),
        Ok(document) => {
            let mut document = document;
            delete_from(&mut document, "General", "Width");
            delete_from(&mut document, "General", "Height");
            match render(&document, end) {
                Ok(bytes) => Ok(bytes),
                Err(_) => Err(IniError::Io),
            }
        },
    }
}

/// Where a found section lies, and what it means.
pub proof fn lemma_section_from(sections: Seq<SectionModel>, name: Seq<char>, from: int)
    requires
        0 <= from,
    ensures
        match section_from(sections, name, from) {
            Some(at) => from <= at < sections.len() && sections[at].0 == Some(name) && forall|
                i: int,
            |
                from <= i < at ==> sections[i].0 != Some(name),
            None => forall|i: int| from <= i < sections.len() ==> sections[i].0 != Some(name),
        },
    decreases sections.len() - from,
{
    if from < sections.len() && sections[from].0 != Some(name) {
        lemma_section_from(sections, name, from + 1);
    }
}

/// What a deletion leaves. The sections keep their number, names and order;
/// every section but the first of the given name keeps its properties; in
/// that one no property with the key is left, and every other property is
/// still there.
pub proof fn lemma_delete(sections: Seq<SectionModel>, name: Seq<char>, key: Seq<char>)
    ensures
        ({
            let after = spec_delete(sections, name, key);
            &&& after.len() == sections.len()
            &&& forall|i: int| 0 <= i < sections.len() ==> (#[trigger] after[i]).0 == sections[i].0
            &&& forall|i: int|
                0 <= i < sections.len() && section_from(sections, name, 0) != Some(i)
                    ==> #[trigger] after[i] == sections[i]
            &&& section_from(after, name, 0) == section_from(sections, name, 0)
            &&& section_from(sections, name, 0) matches Some(at) ==> {
                &&& forall|j: int| 0 <= j < after[at].1.len() ==> (#[trigger] after[at].1[j]).0 != key
                &&& forall|j: int|
                    0 <= j < sections[at].1.len() && (#[trigger] sections[at].1[j]).0 != key
                        ==> after[at].1.contains(sections[at].1[j])
            }
        }),
{
    let after = spec_delete(sections, name, key);
    lemma_section_from(sections, name, 0);
    lemma_section_from(after, name, 0);
    if section_from(sections, name, 0) is Some {
        let at = section_from(sections, name, 0)->0;
        assert forall|j: int| 0 <= j < after[at].1.len() implies (#[trigger] after[at].1[j]).0
            != key by {
            sections[at].1.lemma_filter_pred(keeps(key), j);
        }
        assert forall|j: int|
            0 <= j < sections[at].1.len() && (#[trigger] sections[at].1[j]).0
                != key implies after[at].1.contains(sections[at].1[j]) by {
            sections[at].1.lemma_filter_contains(keeps(key), j);
        }
    }
}

/// The window size is gone and nothing else. After the reset the section
/// `General` holds neither `Width` nor `Height`, every other property of it
/// is still there, and every other section is as it was.
pub proof fn lemma_without_resolution(sections: Seq<SectionModel>)
    ensures
        ({
            let after = spec_without_resolution(sections);
            &&& after.len() == sections.len()
            &&& forall|i: int|
                0 <= i < sections.len() && section_from(sections, "General"@, 0) != Some(i)
                    ==> #[trigger] after[i] == sections[i]
            &&& section_from(sections, "General"@, 0) matches Some(at) ==> {
                &&& after[at].0 == sections[at].0
                &&& forall|j: int|
                    0 <= j < after[at].1.len() ==> (#[trigger] after[at].1[j]).0 != "Width"@
                        && after[at].1[j].0 != "Height"@
                &&& forall|j: int|
                    0 <= j < sections[at].1.len() && (#[trigger] sections[at].1[j]).0 != "Width"@
                        && sections[at].1[j].0 != "Height"@ ==> after[at].1.contains(
                        sections[at].1[j],
                    )
            }
        }),
{
    let first = spec_delete(sections, "General"@, "Width"@);
    let after = spec_delete(first, "General"@, "Height"@);
    lemma_section_from(sections, "General"@, 0);
    lemma_delete(sections, "General"@, "Width"@);
    lemma_delete(first, "General"@, "Height"@);
    if section_from(sections, "General"@, 0) is Some {
        let at = section_from(sections, "General"@, 0)->0;
        assert(section_from(first, "General"@, 0) == Some(at));
        assert(after[at].1 == first[at].1.filter(keeps("Height"@)));
        assert forall|j: int| 0 <= j < after[at].1.len() implies (#[trigger] after[at].1[j]).0
            != "Width"@ && after[at].1[j].0 != "Height"@ by {
            let property = after[at].1[j];
            assert(after[at].1.contains(property));
            first[at].1.lemma_filter_contains_rev(keeps("Height"@), property);
            let k = choose|k: int| 0 <= k < first[at].1.len() && first[at].1[k] == property;
            assert(first[at].1[k].0 != "Width"@);
        }
        assert forall|j: int|
            0 <= j < sections[at].1.len() && (#[trigger] sections[at].1[j]).0 != "Width"@
                && sections[at].1[j].0 != "Height"@ implies after[at].1.contains(
            sections[at].1[j],
        ) by {
            let property = sections[at].1[j];
            assert(first[at].1.contains(property));
            let k = choose|k: int| 0 <= k < first[at].1.len() && first[at].1[k] == property;
            assert(first[at].1[k].0 != "Height"@);
        }
    }
}

} // verus!
