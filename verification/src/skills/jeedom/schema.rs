//! The jeedom skill's config schema, as the admin UI renders it.
use vstd::prelude::*;
use crate::sdk::schema::{ConfigField, ConfigFieldView, ConfigSchema, FieldKind, ItemField, ItemFieldView, field, item};

verus! {

pub open spec fn item_view(key: Seq<char>, kind: FieldKind, required: bool) -> ItemFieldView {
    ItemFieldView { key, kind, required }
}

pub open spec fn field_view(
    key: Seq<char>,
    label: Seq<char>,
    kind: FieldKind,
    required: bool,
    help: Seq<char>,
    item_fields: Seq<ItemFieldView>,
) -> ConfigFieldView {
    ConfigFieldView { key, label, kind, required, help, default: seq![], item_fields }
}

/// The fields of the jeedom config: the box URL and API key, then the
/// sensor, on/off device and shutter lists with their item shapes.
pub open spec fn jeedom_schema() -> Seq<ConfigFieldView> {
    seq![
        field_view("base_url"@, "Jeedom URL"@, FieldKind::Url, true,
            "e.g. http://192.168.1.91 — the host is allowed for HTTP automatically"@, seq![]),
        field_view("api_key"@, "API key"@, FieldKind::Secret, true,
            "Jeedom → Settings → System → Configuration → API"@, seq![]),
        field_view("sensors"@, "Sensors"@, FieldKind::List, false,
            "Spoken name → Jeedom command id; room/kind/prefix filled by discovery"@, seq![
                item_view("name"@, FieldKind::String, true),
                item_view("id"@, FieldKind::Number, true),
                item_view("unit"@, FieldKind::String, false),
                item_view("room"@, FieldKind::String, false),
                item_view("prefix"@, FieldKind::String, false),
                item_view("kind"@, FieldKind::String, false),
                item_view("on_label"@, FieldKind::String, false),
                item_view("off_label"@, FieldKind::String, false),
            ]),
        field_view("actions"@, "Actions"@, FieldKind::List, false,
            "On/off devices: spoken name → Jeedom on/off action command ids"@, seq![
                item_view("name"@, FieldKind::String, true),
                item_view("on_id"@, FieldKind::Number, true),
                item_view("off_id"@, FieldKind::Number, true),
                item_view("room"@, FieldKind::String, false),
                item_view("prefix"@, FieldKind::String, false),
                item_view("confirm"@, FieldKind::Bool, false),
            ]),
        field_view("shutters"@, "Shutters"@, FieldKind::List, false,
            "Roller shutters: spoken name → Jeedom up/down action ids; stop/slider optional"@, seq![
                item_view("name"@, FieldKind::String, true),
                item_view("up_id"@, FieldKind::Number, true),
                item_view("down_id"@, FieldKind::Number, true),
                item_view("stop_id"@, FieldKind::Number, false),
                item_view("slider_id"@, FieldKind::Number, false),
                item_view("room"@, FieldKind::String, false),
                item_view("prefix"@, FieldKind::String, false),
                item_view("confirm"@, FieldKind::Bool, false),
            ]),
    ]
}

/// The jeedom skill's config schema.
pub fn config_schema() -> (s: ConfigSchema)
    ensures
        s@ == jeedom_schema(),
{
    let sensor_items = vec![
        item("name", FieldKind::String, true),
        item("id", FieldKind::Number, true),
        item("unit", FieldKind::String, false),
        item("room", FieldKind::String, false),
        item("prefix", FieldKind::String, false),
        item("kind", FieldKind::String, false),
        item("on_label", FieldKind::String, false),
        item("off_label", FieldKind::String, false),
    ];
    let action_items = vec![
        item("name", FieldKind::String, true),
        item("on_id", FieldKind::Number, true),
        item("off_id", FieldKind::Number, true),
        item("room", FieldKind::String, false),
        item("prefix", FieldKind::String, false),
        item("confirm", FieldKind::Bool, false),
    ];
    let shutter_items = vec![
        item("name", FieldKind::String, true),
        item("up_id", FieldKind::Number, true),
        item("down_id", FieldKind::Number, true),
        item("stop_id", FieldKind::Number, false),
        item("slider_id", FieldKind::Number, false),
        item("room", FieldKind::String, false),
        item("prefix", FieldKind::String, false),
        item("confirm", FieldKind::Bool, false),
    ];
    let ghost expect = jeedom_schema();
    assert(sensor_items@.map_values(|i: ItemField| i@) =~= expect[2].item_fields);
    assert(action_items@.map_values(|i: ItemField| i@) =~= expect[3].item_fields);
    assert(shutter_items@.map_values(|i: ItemField| i@) =~= expect[4].item_fields);
    let f0 = field("base_url", "Jeedom URL", FieldKind::Url, true,
        "e.g. http://192.168.1.91 — the host is allowed for HTTP automatically", Vec::new());
    let f1 = field("api_key", "API key", FieldKind::Secret, true,
        "Jeedom → Settings → System → Configuration → API", Vec::new());
    let f2 = field("sensors", "Sensors", FieldKind::List, false,
        "Spoken name → Jeedom command id; room/kind/prefix filled by discovery", sensor_items);
    let f3 = field("actions", "Actions", FieldKind::List, false,
        "On/off devices: spoken name → Jeedom on/off action command ids", action_items);
    let f4 = field("shutters", "Shutters", FieldKind::List, false,
        "Roller shutters: spoken name → Jeedom up/down action ids; stop/slider optional", shutter_items);
    assert(f0.item_fields@.map_values(|i: ItemField| i@) =~= expect[0].item_fields);
    assert(f1.item_fields@.map_values(|i: ItemField| i@) =~= expect[1].item_fields);
    assert(f0@ =~~= expect[0]);
    assert(f1@ =~~= expect[1]);
    assert(f2@ =~~= expect[2]);
    assert(f3@ =~~= expect[3]);
    assert(f4@ =~~= expect[4]);
    let s = ConfigSchema { fields: vec![f0, f1, f2, f3, f4] };
    assert(s@ =~= expect);
    s
}

} // verus!
