//! The system prompt, assembled from sections.
use vstd::prelude::*;

use crate::text::{chars_of, join, join_strings, string_of, views};

verus! {

/// `std::io::Error`, carried by prompt errors.
#[verifier::external_type_specification]
#[verifier::external_body]
pub struct ExIoError(std::io::Error);

/// Why a prompt could not be built.
#[derive(Debug)]
pub enum PromptBuildError {
    Io(std::io::Error),
}

/// Collects prompt sections in the order they are appended.
#[derive(Debug, Clone, PartialEq, Eq)]
pub struct SystemPromptBuilder {
    append_sections: Vec<String>,
}

impl SystemPromptBuilder {
    /// The sections appended so far.
    pub closed spec fn sections(&self) -> Seq<Seq<char>> {
        views(self.append_sections@)
    }

    /// A builder with no sections.
    pub fn new() -> (b: Self)
        ensures
            b.sections() == Seq::<Seq<char>>::empty(),
    {
        let b = SystemPromptBuilder { append_sections: Vec::new() };
        assert(b.sections() =~= Seq::<Seq<char>>::empty());
        b
    }

    /// The builder with `section` appended.
    pub fn append_section(self, section: &str) -> (b: Self)
        ensures
            b.sections() == self.sections().push(section@),
    {
        let mut sections = self.append_sections;
        let ghost before = views(sections@);
        sections.push(string_of(&chars_of(section)));
        let b = SystemPromptBuilder { append_sections: sections };
        assert(b.sections() =~= before.push(section@));
        b
    }

    /// The sections, in order.
    pub fn build(&self) -> (r: Vec<String>)
        ensures
            views(r@) == self.sections(),
    {
        let mut r: Vec<String> = Vec::new();
        let mut i: usize = 0;
        while i < self.append_sections.len()
            invariant
                0 <= i <= self.append_sections.len(),
                views(r@) == views(self.append_sections@).take(i as int),
            decreases self.append_sections.len() - i,
        {
            let ghost before = views(r@);
            r.push(string_of(&chars_of(self.append_sections[i].as_str())));
            assert(views(r@) =~= before.push(self.append_sections@[i as int]@));
            assert(views(self.append_sections@).take(i + 1) =~= views(
                self.append_sections@,
            ).take(i as int).push(self.append_sections@[i as int]@));
            i += 1;
        }
        assert(views(self.append_sections@).take(self.append_sections.len() as int) == views(
            self.append_sections@,
        ));
        r
    }

    /// The sections joined by blank lines.
    pub fn render(&self) -> (r: String)
        ensures
            r@ == join(self.sections(), "\n\n"@),
    {
        string_of(&join_strings(&self.append_sections, "\n\n"))
    }
}

/// Each item with ` - ` before it.
pub open spec fn bulleted(items: Seq<Seq<char>>) -> Seq<Seq<char>> {
    items.map_values(|s: Seq<char>| " - "@ + s)
}

/// Puts ` - ` before each item.
pub fn prepend_bullets(items: Vec<String>) -> (r: Vec<String>)
    ensures
        views(r@) == bulleted(views(items@)),
{
    let mut r: Vec<String> = Vec::new();
    let mut i: usize = 0;
    while i < items.len()
        invariant
            0 <= i <= items.len(),
            views(r@) == bulleted(views(items@)).take(i as int),
        decreases items.len() - i,
    {
        let mut v = chars_of(" - ");
        let mut rest = chars_of(items[i].as_str());
        v.append(&mut rest);
        let ghost before = views(r@);
        r.push(string_of(&v));
        assert(views(r@) =~= before.push(" - "@ + items@[i as int]@));
        assert(bulleted(views(items@)).take(i + 1) =~= bulleted(views(items@)).take(
            i as int,
        ).push(" - "@ + items@[i as int]@));
        i += 1;
    }
    assert(bulleted(views(items@)).take(items.len() as int) == bulleted(views(items@)));
    r
}

/// Appending sections and then reading them back gives the sections in the
/// order they were appended; rendering joins exactly those sections.
pub proof fn lemma_sections_in_append_order(b: SystemPromptBuilder, first: Seq<char>, second: Seq<char>)
    requires
        b.sections() == Seq::<Seq<char>>::empty(),
    ensures
        b.sections().push(first).push(second) == seq![first, second],
        join(seq![first, second], "\n\n"@) == first + "\n\n"@ + second,
{
    assert(b.sections().push(first).push(second) =~= seq![first, second]);
    let s = seq![first, second];
    assert(s.drop_last() =~= seq![first]);
    reveal_with_fuel(join, 2);
}

} // verus!
