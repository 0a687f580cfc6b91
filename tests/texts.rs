use hull_editor::commands::CommandTree;
use hull_editor::propagation::PartAttributes;
use hull_editor::settings::Language;
use hull_editor::text::MultiLangString;

#[test]
fn text_in_own_language_or_fallback() {
    let t = MultiLangString::of(Language::EN, "Hull".to_string());
    assert_eq!(t.get(Language::EN), "Hull");
    assert_eq!(t.get(Language::CN), "Hull");
    let t = t.with(Language::CN, "船体".to_string());
    assert_eq!(t.get(Language::CN), "船体");
    assert_eq!(t.get(Language::UNSPECIFIED), "船体");
    assert_eq!(t.get_fallback(), "船体");
    assert_eq!(MultiLangString::empty().get(Language::EN), "NO TEXT FOUND");
}

#[test]
fn attribute_labels() {
    assert_eq!(PartAttributes::Id.label(), "Id");
    assert_eq!(PartAttributes::FrontWidth.label(), "ForwardWidth|前段宽度");
    assert_eq!(PartAttributes::BottomRoundness.label(), "BottomRoundness|下表面弧度");
    assert_eq!(PartAttributes::Elevator.label(), "Elevator");
}

#[test]
fn command_prefixes() {
    let mut tree = CommandTree::new();
    assert_eq!(tree.has_command(b""), (true, false));
    assert_eq!(tree.has_command(b"w"), (false, false));
    tree.add_command(b"w");
    tree.add_command(b"sw");
    assert_eq!(tree.has_command(b"w"), (true, true));
    assert_eq!(tree.has_command(b"s"), (true, false));
    assert_eq!(tree.has_command(b"sw"), (true, true));
    assert_eq!(tree.has_command(b"swx"), (false, false));
    assert_eq!(tree.has_command(b"x"), (false, false));
    tree.add_command(b"");
    assert_eq!(tree.has_command(b""), (true, true));
}
