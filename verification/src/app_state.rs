//! The bits of the user interface's state that are kept between runs.

use crate::text::{text_of, texts};
use vstd::prelude::*;

verus! {

/// The value of a setting.
pub enum SettingValue {
    Text(String),
    List(Vec<String>),
}

/// A setting that is to be written to the store.
pub struct Setting {
    pub key: String,
    pub value: SettingValue,
}

/// A `SettingValue` as plain values.
pub enum ValueView {
    Text(Seq<char>),
    List(Seq<Seq<char>>),
}

/// A `Setting` as plain values.
pub struct SettingView {
    pub key: Seq<char>,
    pub value: ValueView,
}

impl View for Setting {
    type V = SettingView;

    open spec fn view(&self) -> SettingView {
        SettingView {
            key: self.key@,
            value: match self.value {
                SettingValue::Text(t) => ValueView::Text(t@),
                SettingValue::List(l) => ValueView::List(texts(l@)),
            },
        }
    }
}

/// The views of a list of settings.
pub open spec fn settings_view(v: Seq<Setting>) -> Seq<SettingView> {
    Seq::new(v.len(), |i: int| v[i]@)
}

/// The three lists that are always written.
pub open spec fn list_settings(
    selected_files: Seq<Seq<char>>,
    expanded_ids: Seq<Seq<char>>,
    local_expanded_ids: Seq<Seq<char>>,
) -> Seq<SettingView> {
    seq![
        SettingView { key: "selected_files"@, value: ValueView::List(selected_files) },
        SettingView { key: "expanded_ids"@, value: ValueView::List(expanded_ids) },
        SettingView { key: "local_expanded_ids"@, value: ValueView::List(local_expanded_ids) },
    ]
}

/// The settings that saving writes, in order. The current folder is written
/// only where one is given and not empty, so that an earlier value stays;
/// the three lists are always written.
pub open spec fn saved_settings(
    current_folder: Option<Seq<char>>,
    selected_files: Seq<Seq<char>>,
    expanded_ids: Seq<Seq<char>>,
    local_expanded_ids: Seq<Seq<char>>,
) -> Seq<SettingView> {
    if current_folder is Some && current_folder->0.len() > 0 {
        seq![SettingView { key: "current_folder"@, value: ValueView::Text(current_folder->0) }]
            + list_settings(selected_files, expanded_ids, local_expanded_ids)
    } else {
        list_settings(selected_files, expanded_ids, local_expanded_ids)
    }
}

/// Lists the settings that saving the state writes to the store.
pub fn save_app_state(
    current_folder: Option<String>,
    selected_files: Vec<String>,
    expanded_ids: Vec<String>,
    local_expanded_ids: Vec<String>,
) -> (r: Vec<Setting>)
    ensures
        settings_view(r@) == saved_settings(
            text_of(current_folder),
            texts(selected_files@),
            texts(expanded_ids@),
            texts(local_expanded_ids@),
        ),
{
    let mut settings: Vec<Setting> = Vec::new();
    match current_folder {
        Some(path) => {
            if !path.as_str().is_empty() {
                settings.push(
                    Setting {
                        key: String::from_str("current_folder"),
                        value: SettingValue::Text(path),
                    },
                );
            }
        },
        None => {},
    }
    settings.push(
        Setting {
            key: String::from_str("selected_files"),
            value: SettingValue::List(selected_files),
        },
    );
    settings.push(
        Setting { key: String::from_str("expanded_ids"), value: SettingValue::List(expanded_ids) },
    );
    settings.push(
        Setting {
            key: String::from_str("local_expanded_ids"),
            value: SettingValue::List(local_expanded_ids),
        },
    );
    assert(settings_view(settings@) =~= saved_settings(
        text_of(current_folder),
        texts(selected_files@),
        texts(expanded_ids@),
        texts(local_expanded_ids@),
    ));
    settings
}

/// A value of the state that is handed to the user interface.
pub enum Loaded<V> {
    /// The value that the store holds.
    Stored(V),
    /// Nothing: the store holds no value.
    Null,
    /// An empty list: the store holds no value.
    EmptyList,
}

/// The state that is handed to the user interface.
pub struct AppState<V> {
    pub current_folder: Loaded<V>,
    pub selected_files: Loaded<V>,
    pub expanded_ids: Loaded<V>,
    pub local_expanded_ids: Loaded<V>,
}

/// The stored value, or `fallback` where there is none.
pub open spec fn loaded_or<V>(stored: Option<V>, fallback: Loaded<V>) -> Loaded<V> {
    match stored {
        Some(v) => Loaded::Stored(v),
        None => fallback,
    }
}

/// Puts together the state from what the store holds: a missing folder is
/// handed on as nothing, a missing list as an empty list.
pub fn load_app_state<V>(
    current_folder: Option<V>,
    selected_files: Option<V>,
    expanded_ids: Option<V>,
    local_expanded_ids: Option<V>,
) -> (r: AppState<V>)
    ensures
        r.current_folder == loaded_or(current_folder, Loaded::Null),
        r.selected_files == loaded_or(selected_files, Loaded::EmptyList),
        r.expanded_ids == loaded_or(expanded_ids, Loaded::EmptyList),
        r.local_expanded_ids == loaded_or(local_expanded_ids, Loaded::EmptyList),
{
    AppState {
        current_folder: match current_folder {
            Some(v) => Loaded::Stored(v),
            None => Loaded::Null,
        },
        selected_files: match selected_files {
            Some(v) => Loaded::Stored(v),
            None => Loaded::EmptyList,
        },
        expanded_ids: match expanded_ids {
            Some(v) => Loaded::Stored(v),
            None => Loaded::EmptyList,
        },
        local_expanded_ids: match local_expanded_ids {
            Some(v) => Loaded::Stored(v),
            None => Loaded::EmptyList,
        },
    }
}

} // verus!
