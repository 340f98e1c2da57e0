//! Skill config schema: what the admin UI renders as a typed form.
use vstd::prelude::*;

verus! {

#[derive(Debug, Clone, PartialEq, Eq)]
pub struct ConfigSchema {
    pub fields: Vec<ConfigField>,
}

#[derive(Debug, Clone, PartialEq, Eq)]
pub struct ConfigField {
    pub key: String,
    pub label: String,
    pub kind: FieldKind,
    pub required: bool,
    pub help: String,
    pub default: String,
    /// Item shape for `FieldKind::List` fields; empty otherwise.
    pub item_fields: Vec<ItemField>,
}

#[derive(Debug, Clone, Copy, PartialEq, Eq, Structural)]
pub enum FieldKind {
    String,
    Number,
    Secret,
    Url,
    Host,
    List,
    Bool,
}

#[derive(Debug, Clone, PartialEq, Eq)]
pub struct ItemField {
    pub key: String,
    pub kind: FieldKind,
    pub required: bool,
}

impl ConfigField {
    /// Secret fields are write-only in the admin UI.
    pub fn is_secret(&self) -> (r: bool)
        ensures
            r == (self.kind == FieldKind::Secret),
    {
        match self.kind {
            FieldKind::Secret => true,
            _ => false,
        }
    }
}

/// Mathematical form of an item field: key, kind, required.
pub struct ItemFieldView {
    pub key: Seq<char>,
    pub kind: FieldKind,
    pub required: bool,
}

/// Mathematical form of a config field.
pub struct ConfigFieldView {
    pub key: Seq<char>,
    pub label: Seq<char>,
    pub kind: FieldKind,
    pub required: bool,
    pub help: Seq<char>,
    pub default: Seq<char>,
    pub item_fields: Seq<ItemFieldView>,
}

impl View for ItemField {
    type V = ItemFieldView;

    open spec fn view(&self) -> ItemFieldView {
        ItemFieldView { key: self.key@, kind: self.kind, required: self.required }
    }
}

impl View for ConfigField {
    type V = ConfigFieldView;

    open spec fn view(&self) -> ConfigFieldView {
        ConfigFieldView {
            key: self.key@,
            label: self.label@,
            kind: self.kind,
            required: self.required,
            help: self.help@,
            default: self.default@,
            item_fields: self.item_fields@.map_values(|i: ItemField| i@),
        }
    }
}

impl View for ConfigSchema {
    type V = Seq<ConfigFieldView>;

    open spec fn view(&self) -> Seq<ConfigFieldView> {
        self.fields@.map_values(|f: ConfigField| f@)
    }
}

/// An item field of a list-kind config field.
pub(crate) fn item(key: &str, kind: FieldKind, required: bool) -> (i: ItemField)
    ensures
        i@ == (ItemFieldView { key: key@, kind, required }),
{
    ItemField { key: crate::text::owned(key), kind, required }
}

/// A config field with an empty default.
pub(crate) fn field(key: &str, label: &str, kind: FieldKind, required: bool, help: &str, item_fields: Vec<ItemField>) -> (f: ConfigField)
    ensures
        f.key@ == key@,
        f.label@ == label@,
        f.kind == kind,
        f.required == required,
        f.help@ == help@,
        f.default@ == Seq::<char>::empty(),
        f.item_fields@ == item_fields@,
{
    ConfigField {
        key: crate::text::owned(key),
        label: crate::text::owned(label),
        kind,
        required,
        help: crate::text::owned(help),
        default: String::new(),
        item_fields,
    }
}

} // verus!
