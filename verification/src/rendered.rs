//! Lines and sections of a rendered spec.

use vstd::prelude::*;

verus! {

/// A single line in the rendered spec, with hierarchical children.
#[derive(Debug)]
pub struct RenderedSpecLine {
    /// The formatted content of the line.
    pub content: String,
    /// Child lines in the hierarchy.
    pub children: Vec<RenderedSpecLine>,
}

/// A line with its children, as a tree of character sequences.
pub ghost struct Line {
    pub content: Seq<char>,
    pub children: Seq<Line>,
}

impl View for RenderedSpecLine {
    type V = Line;

    open spec fn view(&self) -> Line
        decreases self,
    {
        Line {
            content: self.content@,
            children: Seq::new(
                self.children@.len(),
                |i: int|
                    if 0 <= i < self.children@.len() {
                        self.children@[i].view()
                    } else {
                        arbitrary()
                    },
            ),
        }
    }
}

/// The trees of `lines`, in their order.
pub open spec fn line_views(lines: Seq<RenderedSpecLine>) -> Seq<Line> {
    Seq::new(lines.len(), |i: int| lines[i]@)
}

/// A line's tree has the line's content over the trees of its children.
pub proof fn lemma_line_view(line: RenderedSpecLine)
    ensures
        line@.content == line.content@,
        line@.children == line_views(line.children@),
{
    reveal_with_fuel(<RenderedSpecLine as View>::view, 2);
    assert(line@.children =~= line_views(line.children@));
}

impl Clone for RenderedSpecLine {
    /// A line that says the same, over children that say the same.
    fn clone(&self) -> (copy: Self)
        ensures
            copy@ == self@,
        decreases self,
    {
        let mut children: Vec<RenderedSpecLine> = Vec::new();
        for i in 0..self.children.len()
            invariant
                children@.len() == i,
                forall|j: int| 0 <= j < i ==> (#[trigger] children@[j])@ == self.children@[j]@,
        {
            assert(decreases_to!(self => self.children));
            assert(decreases_to!(self.children => self.children@));
            assert(decreases_to!(self.children@ => self.children@[i as int]));
            children.push(self.children[i].clone());
        }
        let copy = RenderedSpecLine { content: self.content.clone(), children };
        proof {
            lemma_line_view(*self);
            lemma_line_view(copy);
            assert(line_views(copy.children@) =~= line_views(self.children@));
        }
        copy
    }
}

/// Lines that say the same as `lines`.
fn clone_lines(lines: &Vec<RenderedSpecLine>) -> (copy: Vec<RenderedSpecLine>)
    ensures
        line_views(copy@) == line_views(lines@),
{
    let mut copy: Vec<RenderedSpecLine> = Vec::new();
    for i in 0..lines.len()
        invariant
            copy@.len() == i,
            forall|j: int| 0 <= j < i ==> (#[trigger] copy@[j])@ == lines@[j]@,
    {
        copy.push(lines[i].clone());
    }
    assert(line_views(copy@) =~= line_views(lines@));
    copy
}

/// A section's name and its lines.
pub ghost struct Section {
    pub name: Seq<char>,
    pub lines: Seq<Line>,
}

/// The sections of `list`, in their order.
pub open spec fn section_views(list: Seq<(String, Vec<RenderedSpecLine>)>) -> Seq<Section> {
    Seq::new(list.len(), |i: int| Section { name: list[i].0@, lines: line_views(list[i].1@) })
}

/// A rendered specification, grouped by sections.
#[derive(Debug)]
pub struct RenderedSpec {
    /// List of (section_name, lines) pairs.
    pub sections: Vec<(String, Vec<RenderedSpecLine>)>,
}

impl Clone for RenderedSpec {
    /// A rendered spec with the same sections.
    fn clone(&self) -> (copy: Self)
        ensures
            copy@ == self@,
    {
        let mut sections: Vec<(String, Vec<RenderedSpecLine>)> = Vec::new();
        for i in 0..self.sections.len()
            invariant
                section_views(sections@) == section_views(self.sections@).take(i as int),
        {
            let (name, lines) = &self.sections[i];
            let ghost before = section_views(sections@);
            let copied = clone_lines(lines);
            sections.push((name.clone(), copied));
            assert(section_views(sections@) =~= before.push(section_views(self.sections@)[i as int]));
            assert(section_views(self.sections@).take(i + 1) =~= before.push(
                section_views(self.sections@)[i as int],
            ));
        }
        assert(section_views(self.sections@).take(self.sections@.len() as int) =~= section_views(
            self.sections@,
        ));
        RenderedSpec { sections }
    }
}

impl View for RenderedSpec {
    type V = Seq<Section>;

    open spec fn view(&self) -> Seq<Section> {
        section_views(self.sections@)
    }
}

} // verus!
