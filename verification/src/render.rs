//! The line-oriented text of a report.
//!
//! A section is written as its title in square brackets on a line of its
//! own, followed by one `key = value` line per field. A report is its
//! sections one after another, closed by one blank line.

use vstd::prelude::*;
use vstd::string::StringExecFns;
use crate::media::Media;
use crate::media::MediaView;
use crate::report::Field;
use crate::report::ReportSection;
use crate::report::SectionView;
use crate::report::field_views;
use crate::report::file_section;
use crate::report::file_section_of;
use crate::report::report_sections;
use crate::report::section_views;
use crate::report::sections_of_report;
use crate::report::sections_of_tracks;
use crate::report::tracks_sections;
use crate::track::ClassifiedTrack;
use crate::track::TrackFailure;

verus! {

/// The line of one field.
pub open spec fn line_text(f: (Seq<char>, Seq<char>)) -> Seq<char> {
    f.0 + " = "@ + f.1 + "\n"@
}

/// The lines of a list of fields, in order.
pub open spec fn lines_text(fields: Seq<(Seq<char>, Seq<char>)>) -> Seq<char>
    decreases fields.len(),
{
    if fields.len() == 0 {
        Seq::empty()
    } else {
        lines_text(fields.drop_last()) + line_text(fields.last())
    }
}

/// The title line of a section.
pub open spec fn title_text(title: Seq<char>) -> Seq<char> {
    "["@ + title + "]\n"@
}

/// The text of one section: its title line, then its field lines.
pub open spec fn section_text(s: SectionView) -> Seq<char> {
    title_text(s.title) + lines_text(s.fields)
}

/// The text of a list of sections, in order, with nothing between them.
pub open spec fn sections_text(sections: Seq<SectionView>) -> Seq<char>
    decreases sections.len(),
{
    if sections.len() == 0 {
        Seq::empty()
    } else {
        sections_text(sections.drop_last()) + section_text(sections.last())
    }
}

/// The text of a report: its sections, then one blank line.
pub open spec fn report_text(sections: Seq<SectionView>) -> Seq<char> {
    sections_text(sections) + "\n"@
}

/// The text of lines is the text of the lines before the last, then the last.
pub proof fn lemma_lines_text_push(fields: Seq<(Seq<char>, Seq<char>)>, f: (Seq<char>, Seq<char>))
    ensures
        lines_text(fields.push(f)) == lines_text(fields) + line_text(f),
{
    assert(fields.push(f).drop_last() =~= fields);
}

/// The text of sections is the text of those before the last, then the last.
pub proof fn lemma_sections_text_push(sections: Seq<SectionView>, s: SectionView)
    ensures
        sections_text(sections.push(s)) == sections_text(sections) + section_text(s),
{
    assert(sections.push(s).drop_last() =~= sections);
}

/// The text of two lists of sections one after the other is the text of the
/// first followed by the text of the second.
pub proof fn lemma_sections_text_concat(a: Seq<SectionView>, b: Seq<SectionView>)
    ensures
        sections_text(a + b) == sections_text(a) + sections_text(b),
    decreases b.len(),
{
    if b.len() == 0 {
        assert(a + b =~= a);
    } else {
        lemma_sections_text_concat(a, b.drop_last());
        assert((a + b).drop_last() =~= a + b.drop_last());
        assert((a + b).last() == b.last());
    }
}

/// Writes one section: the title in square brackets, then each field as
/// `key = value`, every line ended by a newline.
pub fn serialize_section(section: &ReportSection) -> (out: String)
    ensures
        out@ == section_text(section@),
{
    let mut out: String = String::from_str("[");
    out.append(section.title.as_str());
    out.append("]\n");
    let ghost fields = field_views(section.fields@);
    let mut i: usize = 0;
    while i < section.fields.len()
        invariant
            i <= section.fields.len(),
            fields == field_views(section.fields@),
            out@ == title_text(section@.title) + lines_text(fields.take(i as int)),
        decreases section.fields.len() - i,
    {
        let f: &Field = &section.fields[i];
        proof {
            lemma_lines_text_push(fields.take(i as int), fields[i as int]);
            assert(fields.take(i as int + 1) =~= fields.take(i as int).push(fields[i as int]));
        }
        out.append(f.key.as_str());
        out.append(" = ");
        out.append(f.value.as_str());
        out.append("\n");
        i = i + 1;
    }
    assert(fields.take(i as int) =~= fields);
    out
}

/// Writes a list of sections one after another, with nothing between them
/// and nothing after the last.
pub fn serialize_sections(sections: &Vec<ReportSection>) -> (out: String)
    ensures
        out@ == sections_text(section_views(sections@)),
{
    let mut out: String = String::new();
    let ghost views = section_views(sections@);
    let mut i: usize = 0;
    while i < sections.len()
        invariant
            i <= sections.len(),
            views == section_views(sections@),
            out@ == sections_text(views.take(i as int)),
        decreases sections.len() - i,
    {
        let text: String = serialize_section(&sections[i]);
        proof {
            lemma_sections_text_push(views.take(i as int), views[i as int]);
            assert(views.take(i as int + 1) =~= views.take(i as int).push(views[i as int]));
        }
        out.append(text.as_str());
        i = i + 1;
    }
    assert(views.take(i as int) =~= views);
    out
}

/// Writes a report: its sections one after another, then one blank line.
pub fn serialize(sections: &Vec<ReportSection>) -> (out: String)
    ensures
        out@ == report_text(section_views(sections@)),
{
    let mut out: String = serialize_sections(sections);
    out.append("\n");
    out
}

/// Renders the report of a file and its classified tracks as text.
///
/// The result depends on the arguments alone: it is the text of the file
/// section, followed by the sections of each track in the given order,
/// followed by one blank line.
pub fn render(media: &Media, entries: &Vec<Result<ClassifiedTrack, TrackFailure>>) -> (out: String)
    ensures
        out@ == report_text(sections_of_report(media@, entries@)),
{
    let sections: Vec<ReportSection> = report_sections(media, entries);
    serialize(&sections)
}

/// Renders the file section alone: the part of a report that is known before
/// the container is parsed.
pub fn render_file_section(media: &Media) -> (out: String)
    ensures
        out@ == section_text(file_section_of(media@)),
{
    let section: ReportSection = file_section(media);
    serialize_section(&section)
}

/// Renders the part of a report that follows the file section: the sections
/// of each track, then the closing blank line.
pub fn render_tracks(entries: &Vec<Result<ClassifiedTrack, TrackFailure>>) -> (out: String)
    ensures
        out@ == report_text(sections_of_tracks(entries@)),
{
    let sections: Vec<ReportSection> = tracks_sections(entries);
    serialize(&sections)
}

/// A report written in two parts, the file section first and the tracks
/// after it, is the same text as the report written at once.
pub proof fn lemma_report_in_two_parts(
    media: MediaView,
    entries: Seq<Result<ClassifiedTrack, TrackFailure>>,
)
    ensures
        report_text(sections_of_report(media, entries)) == section_text(file_section_of(media))
            + report_text(sections_of_tracks(entries)),
{
    let head = seq![file_section_of(media)];
    lemma_sections_text_concat(head, sections_of_tracks(entries));
    lemma_sections_text_push(Seq::empty(), file_section_of(media));
    assert(sections_text(head) =~= section_text(file_section_of(media)));
}

/// Rendering is deterministic: the same file metadata and the same
/// classified tracks always give the same sections and the same text.
pub proof fn lemma_render_deterministic(
    media1: MediaView,
    entries1: Seq<Result<ClassifiedTrack, TrackFailure>>,
    media2: MediaView,
    entries2: Seq<Result<ClassifiedTrack, TrackFailure>>,
)
    requires
        media1 == media2,
        entries1 == entries2,
    ensures
        sections_of_report(media1, entries1) == sections_of_report(media2, entries2),
        report_text(sections_of_report(media1, entries1)) == report_text(
            sections_of_report(media2, entries2),
        ),
{
}

} // verus!
