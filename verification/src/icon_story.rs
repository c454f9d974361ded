//! The story that shows every icon of the icon set.

use vstd::prelude::*;

verus! {

/// One part of a story, top to bottom.
#[derive(Debug)]
pub enum StoryNode<I> {
    /// The title of the story, taken from the component that it shows.
    Title,
    /// A line of text.
    Label(&'static str),
    /// A horizontal row of icons with a gap between neighbours.
    IconRow { gap: u32, icons: Vec<I> },
}

/// The gap between two icons of the row, in steps of the spacing scale.
pub const ICON_ROW_GAP: u32 = 3;

/// The story of the icon component.
#[derive(Clone, Copy, Debug, PartialEq, Eq, Hash, Structural)]
pub struct IconStory;

impl IconStory {
    /// Lays the story out for the given icons: the title, two labels, and
    /// one row that holds every icon in the order given.
    pub fn render<I>(&self, icons: Vec<I>) -> (story: Vec<StoryNode<I>>)
        ensures
            story@.len() == 4,
            story@[0] is Title,
            story@[1] matches StoryNode::Label(text) && text@ == "DecoratedIcon"@,
            story@[2] matches StoryNode::Label(text) && text@ == "All Icons"@,
            story@[3] == (StoryNode::IconRow { gap: ICON_ROW_GAP, icons }),
    {
        let mut story: Vec<StoryNode<I>> = Vec::new();
        story.push(StoryNode::Title);
        story.push(StoryNode::Label("DecoratedIcon"));
        story.push(StoryNode::Label("All Icons"));
        story.push(StoryNode::IconRow { gap: ICON_ROW_GAP, icons });
        story
    }
}

} // verus!
