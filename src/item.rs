use vstd::prelude::*;

verus! {

/// Whether a history entry holds text or an image.
#[derive(Debug, Clone, Copy, PartialEq, Eq, Structural)]
pub enum ItemKind {
    Text,
    Image,
}

/// One recorded clipboard snapshot. For images `content` is a Base64 PNG
/// data URI; `image_path` is set only where the image also exists on disk.
#[derive(Debug, Clone)]
pub struct ClipboardItem {
    pub id: String,
    pub content: String,
    /// Creation time in seconds.
    pub timestamp: u64,
    pub item_type: ItemKind,
    pub image_path: Option<String>,
}

/// The value of a [`ClipboardItem`], with its strings as character sequences.
pub struct ItemView {
    pub id: Seq<char>,
    pub content: Seq<char>,
    pub timestamp: u64,
    pub kind: ItemKind,
    pub image_path: Option<Seq<char>>,
}

impl View for ClipboardItem {
    type V = ItemView;

    open spec fn view(&self) -> ItemView {
        ItemView {
            id: self.id@,
            content: self.content@,
            timestamp: self.timestamp,
            kind: self.item_type,
            image_path: match self.image_path {
                Some(p) => Some(p@),
                None => None,
            },
        }
    }
}

/// The values of a sequence of items, in the same order.
pub open spec fn item_views(s: Seq<ClipboardItem>) -> Seq<ItemView> {
    s.map_values(|x: ClipboardItem| x@)
}

impl ClipboardItem {
    /// A copy with the same value.
    pub fn duplicate(&self) -> (r: ClipboardItem)
        ensures
            r@ == self@,
    {
        let image_path = match &self.image_path {
            Some(p) => Some(p.clone()),
            None => None,
        };
        ClipboardItem {
            id: self.id.clone(),
            content: self.content.clone(),
            timestamp: self.timestamp,
            item_type: self.item_type,
            image_path,
        }
    }
}

} // verus!
