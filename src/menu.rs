use vstd::prelude::*;
use vstd::string::*;
use crate::state::{AppState, Interaction};
use crate::style::{Rgb, shade, button_color, text_color, normal_button};

verus! {

/// What the menu does about one change of the button's interaction.
#[derive(Clone, Copy, Debug, PartialEq, Eq, Structural)]
pub struct MenuReaction {
    /// The colour the button takes.
    pub color: Rgb,
    /// The state that the menu asks to move to, if any.
    pub request: Option<AppState>,
}

/// A press asks for the game; nothing else asks for anything.
pub open spec fn requested(i: Interaction) -> Option<AppState> {
    if i == Interaction::Pressed {
        Some(AppState::InGame)
    } else {
        None
    }
}

pub fn react(i: Interaction) -> (r: MenuReaction)
    ensures
        r.color == shade(i),
        r.request == requested(i),
{
    let color = button_color(i);
    let request = match i {
        Interaction::Pressed => Some(AppState::InGame),
        _ => None,
    };
    MenuReaction { color, request }
}

/// A length in a UI layout.
#[derive(Clone, Copy, Debug, PartialEq, Eq, Structural)]
pub enum Length {
    Percent(u32),
    Px(u32),
}

#[derive(Clone, Copy, Debug, PartialEq, Eq, Structural)]
pub enum UiKind {
    /// A plain box that lays out its children.
    Container,
    /// A clickable button.
    Button,
    /// A line of text.
    Label,
}

/// One element of a UI tree laid out as a list: `parent` is the position of
/// the element's parent in that list.
#[derive(Clone, Debug)]
pub struct UiNode {
    pub parent: Option<usize>,
    pub kind: UiKind,
    pub width: Option<Length>,
    pub height: Option<Length>,
    /// Whether the children are centred on both axes.
    pub center_children: bool,
    pub background: Option<Rgb>,
    pub text: String,
    pub font_size: u32,
    pub text_color: Option<Rgb>,
}

/// Element `i` of `nodes` is `root` or lies below it. Parents come before
/// their children, which is what makes the walk upwards end.
pub open spec fn reaches(nodes: Seq<UiNode>, i: int, root: int) -> bool
    decreases i,
{
    if i < 0 || i >= nodes.len() {
        false
    } else if i == root {
        true
    } else {
        match nodes[i].parent {
            Some(p) => (p as int) < i && reaches(nodes, p as int, root),
            None => false,
        }
    }
}

/// Every element of `nodes` lies below element 0: removing element 0 with
/// all its descendants leaves none of them behind.
pub open spec fn rooted_at_first(nodes: Seq<UiNode>) -> bool {
    nodes.len() > 0 && nodes[0].parent is None && forall|i: int|
        0 <= i < nodes.len() ==> #[trigger] reaches(nodes, i, 0)
}

/// The menu screen: a full-screen container that centres a 150 by 65 pixel
/// button, which holds the label "Play".
pub fn menu_layout() -> (r: Vec<UiNode>)
    ensures
        r.len() == 3,
        rooted_at_first(r@),
        r[0].kind == UiKind::Container,
        r[0].width == Some(Length::Percent(100)),
        r[0].height == Some(Length::Percent(100)),
        r[0].center_children,
        r[0].background is None,
        r[1].kind == UiKind::Button,
        r[1].parent == Some(0usize),
        r[1].width == Some(Length::Px(150)),
        r[1].height == Some(Length::Px(65)),
        r[1].center_children,
        r[1].background == Some(normal_button()),
        r[2].kind == UiKind::Label,
        r[2].parent == Some(1usize),
        r[2].text@ == "Play"@,
        r[2].font_size == 40,
        r[2].text_color == Some(Rgb::spec_new(90, 90, 90)),
{
    let root = UiNode {
        parent: None,
        kind: UiKind::Container,
        width: Some(Length::Percent(100)),
        height: Some(Length::Percent(100)),
        center_children: true,
        background: None,
        text: String::new(),
        font_size: 0,
        text_color: None,
    };
    let button = UiNode {
        parent: Some(0),
        kind: UiKind::Button,
        width: Some(Length::Px(150)),
        height: Some(Length::Px(65)),
        center_children: true,
        background: Some(button_color(Interaction::Idle)),
        text: String::new(),
        font_size: 0,
        text_color: None,
    };
    let label = UiNode {
        parent: Some(1),
        kind: UiKind::Label,
        width: None,
        height: None,
        center_children: false,
        background: None,
        text: String::from_str("Play"),
        font_size: 40,
        text_color: Some(text_color()),
    };
    let mut r: Vec<UiNode> = Vec::new();
    r.push(root);
    r.push(button);
    r.push(label);
    proof {
        assert(reaches(r@, 0, 0));
        assert(reaches(r@, 1, 0));
        assert(reaches(r@, 2, 0));
        assert forall|i: int| 0 <= i < r@.len() implies #[trigger] reaches(r@, i, 0) by {
            assert(i == 0 || i == 1 || i == 2);
        }
    }
    r
}

} // verus!
