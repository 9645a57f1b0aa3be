//! The entities a search query answers with: summaries with their sources,
//! and the icon attached to a result.  Ranking and formatting of results
//! belong to the search engine itself, not to this library.

use vstd::prelude::*;

use crate::tree::{Icon, IconKind};

verus! {

/// A batch of search summaries.
#[derive(Clone, Debug, Default)]
pub struct RepeatedSearchSummaryPB {
    pub items: Vec<SearchSummaryPB>,
}

/// One generated summary and the sources it drew from.
#[derive(Clone, Debug, Default)]
pub struct SearchSummaryPB {
    pub content: String,
    pub sources: Vec<SearchSourcePB>,
}

/// One source a summary cites.
#[derive(Clone, Debug, Default)]
pub struct SearchSourcePB {
    pub id: String,
    pub display_name: String,
    pub icon: Option<ResultIconPB>,
}

/// The kind of icon attached to a search result.
#[derive(Clone, Copy, Debug, PartialEq, Eq, Structural, Default)]
pub enum ResultIconTypePB {
    #[default]
    Emoji,
    Url,
    Icon,
}

/// The icon attached to a search result: a kind and a single string
/// payload.
#[derive(Clone, Debug, PartialEq, Eq, Default)]
pub struct ResultIconPB {
    pub ty: ResultIconTypePB,
    pub value: String,
}

impl From<ResultIconTypePB> for i64 {
    /// The wire code of an icon kind.
    fn from(val: ResultIconTypePB) -> (r: i64) {
        match val {
            ResultIconTypePB::Emoji => 0,
            ResultIconTypePB::Url => 1,
            ResultIconTypePB::Icon => 2,
        }
    }
}

impl vstd::std_specs::convert::FromSpecImpl<ResultIconTypePB> for i64 {
    open spec fn obeys_from_spec() -> bool {
        true
    }

    open spec fn from_spec(val: ResultIconTypePB) -> i64 {
        match val {
            ResultIconTypePB::Emoji => 0,
            ResultIconTypePB::Url => 1,
            ResultIconTypePB::Icon => 2,
        }
    }
}

impl From<i64> for ResultIconTypePB {
    /// The icon kind a wire code stands for; an unknown code falls back to
    /// the emoji kind.
    fn from(icon_ty: i64) -> (r: ResultIconTypePB) {
        if icon_ty == 1 {
            ResultIconTypePB::Url
        } else if icon_ty == 2 {
            ResultIconTypePB::Icon
        } else {
            ResultIconTypePB::Emoji
        }
    }
}

impl vstd::std_specs::convert::FromSpecImpl<i64> for ResultIconTypePB {
    open spec fn obeys_from_spec() -> bool {
        true
    }

    open spec fn from_spec(icon_ty: i64) -> ResultIconTypePB {
        if icon_ty == 1 {
            ResultIconTypePB::Url
        } else if icon_ty == 2 {
            ResultIconTypePB::Icon
        } else {
            ResultIconTypePB::Emoji
        }
    }
}

impl From<ResultIconTypePB> for IconKind {
    /// The tree model's icon kind behind a result icon kind.
    fn from(rev: ResultIconTypePB) -> (r: IconKind) {
        match rev {
            ResultIconTypePB::Emoji => IconKind::Emoji,
            ResultIconTypePB::Url => IconKind::Url,
            ResultIconTypePB::Icon => IconKind::Glyph,
        }
    }
}

impl vstd::std_specs::convert::FromSpecImpl<ResultIconTypePB> for IconKind {
    open spec fn obeys_from_spec() -> bool {
        true
    }

    open spec fn from_spec(rev: ResultIconTypePB) -> IconKind {
        match rev {
            ResultIconTypePB::Emoji => IconKind::Emoji,
            ResultIconTypePB::Url => IconKind::Url,
            ResultIconTypePB::Icon => IconKind::Glyph,
        }
    }
}

impl From<IconKind> for ResultIconTypePB {
    /// The result icon kind showing a tree model icon kind.
    fn from(val: IconKind) -> (r: ResultIconTypePB) {
        match val {
            IconKind::Emoji => ResultIconTypePB::Emoji,
            IconKind::Url => ResultIconTypePB::Url,
            IconKind::Glyph => ResultIconTypePB::Icon,
        }
    }
}

impl vstd::std_specs::convert::FromSpecImpl<IconKind> for ResultIconTypePB {
    open spec fn obeys_from_spec() -> bool {
        true
    }

    open spec fn from_spec(val: IconKind) -> ResultIconTypePB {
        match val {
            IconKind::Emoji => ResultIconTypePB::Emoji,
            IconKind::Url => ResultIconTypePB::Url,
            IconKind::Glyph => ResultIconTypePB::Icon,
        }
    }
}

impl From<ResultIconPB> for Icon {
    /// The tree model's icon behind a result icon.
    fn from(rev: ResultIconPB) -> (r: Icon) {
        Icon { kind: IconKind::from(rev.ty), value: rev.value }
    }
}

impl vstd::std_specs::convert::FromSpecImpl<ResultIconPB> for Icon {
    open spec fn obeys_from_spec() -> bool {
        true
    }

    open spec fn from_spec(rev: ResultIconPB) -> Icon {
        Icon {
            kind: match rev.ty {
                ResultIconTypePB::Emoji => IconKind::Emoji,
                ResultIconTypePB::Url => IconKind::Url,
                ResultIconTypePB::Icon => IconKind::Glyph,
            },
            value: rev.value,
        }
    }
}

impl From<Icon> for ResultIconPB {
    /// The result icon showing a tree model icon.
    fn from(val: Icon) -> (r: ResultIconPB) {
        ResultIconPB { ty: ResultIconTypePB::from(val.kind), value: val.value }
    }
}

impl vstd::std_specs::convert::FromSpecImpl<Icon> for ResultIconPB {
    open spec fn obeys_from_spec() -> bool {
        true
    }

    open spec fn from_spec(val: Icon) -> ResultIconPB {
        ResultIconPB {
            ty: match val.kind {
                IconKind::Emoji => ResultIconTypePB::Emoji,
                IconKind::Url => ResultIconTypePB::Url,
                IconKind::Glyph => ResultIconTypePB::Icon,
            },
            value: val.value,
        }
    }
}

} // verus!
