//! Editor modes, options and the changes that the command line can make to
//! them.
use vstd::prelude::*;

verus! {

/// Interface language.
#[derive(Clone, Copy, Debug, PartialEq, Eq, Structural)]
pub enum Language {
    CN,
    EN,
    UNSPECIFIED,
}

/// What typed commands act on.
#[derive(Clone, Copy, Debug, PartialEq, Eq, Structural)]
pub enum CommandMode {
    Translation,
    Attributes,
    Rotation,
    Disabled,
}

/// Switches of the editor.
#[derive(Clone, Copy, Debug, PartialEq, Eq, Structural)]
pub struct EditorOptions {
    pub floating: bool,
    pub edit_near: bool,
    pub group_edit_attributes: bool,
    pub gizmos_activated: bool,
    pub group_gizmos: bool,
    pub local_gizmo: bool,
}

/// A change of settings: each field that is `Some` replaces the setting.
#[derive(Clone, Copy, Debug, PartialEq, Eq, Structural)]
pub struct EditorSettingChange {
    pub floating: Option<bool>,
    pub edit_near: Option<bool>,
    pub language: Option<Language>,
}

impl EditorSettingChange {
    /// A change that changes nothing.
    pub fn none() -> (r: EditorSettingChange)
        ensures
            r.floating.is_none() && r.edit_near.is_none() && r.language.is_none(),
    {
        EditorSettingChange { floating: None, edit_near: None, language: None }
    }
}

pub open spec fn or_keep<T>(new: Option<T>, old: T) -> T {
    match new {
        Some(v) => v,
        None => old,
    }
}

/// Applies `change` to the options and the language.
pub fn set_editor_settings(
    options: &mut EditorOptions,
    language: &mut Language,
    change: &EditorSettingChange,
)
    ensures
        final(options).floating == or_keep(change.floating, old(options).floating),
        final(options).edit_near == or_keep(change.edit_near, old(options).edit_near),
        final(options).group_edit_attributes == old(options).group_edit_attributes,
        final(options).gizmos_activated == old(options).gizmos_activated,
        final(options).group_gizmos == old(options).group_gizmos,
        final(options).local_gizmo == old(options).local_gizmo,
        *final(language) == or_keep(change.language, *old(language)),
{
    if let Some(value) = change.floating {
        options.floating = value;
    }
    if let Some(value) = change.edit_near {
        options.edit_near = value;
    }
    if let Some(value) = change.language {
        *language = value;
    }
}

/// Marks a part as selected.
#[derive(Clone, Copy, Debug, PartialEq, Eq, Structural)]
pub struct Selected {}

/// Marks the part under the pointer.
#[derive(Clone, Copy, Debug, PartialEq, Eq, Structural)]
pub struct Hovered {}

/// An entry of the editor's history: the parts it touched.
pub struct Action {
    pub affected_entities: Vec<u64>,
}

impl Action {
    /// An entry for the parts `affected_entities`.
    pub fn new(affected_entities: Vec<u64>) -> (r: Action)
        ensures
            r.affected_entities@ == affected_entities@,
    {
        Action { affected_entities }
    }
}

/// A save file that could not be read: what was wrong with it.
pub struct ParseError {
    pub desc: String,
}

impl ParseError {
    /// An error described by `desc`.
    pub fn new(desc: String) -> (r: ParseError)
        ensures
            r.desc@ == desc@,
    {
        ParseError { desc }
    }

    /// The description of the error.
    pub fn message(&self) -> (r: String)
        ensures
            r@ == self.desc@,
    {
        self.desc.clone()
    }
}

} // verus!
