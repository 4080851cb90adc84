use vstd::prelude::*;
use crate::configuration::{
    ConfigurationOptionType, MinecraftServerConfiguration, is_property_name, same_shape,
    lemma_set_writes_only_that_field,
};

verus! {

/// Where the application as a whole stands.
#[derive(Debug, PartialEq, Eq, Structural, Clone, Copy)]
pub enum AppState {
    ChoiceMenu,
    Running,
    Exited,
    EditingConfiguration,
}

/// An input to the outer, application-level flow.
#[derive(Debug, PartialEq, Eq, Structural, Clone, Copy)]
pub enum AppEvent {
    StartServer,
    Exit,
    SelectedOption,
}

/// Which widget collects the value of the option being edited.
#[derive(Debug, PartialEq, Eq, Structural, Clone, Copy)]
pub enum EditorState {
    SelectOnOff,
    NumberInput,
    TextInput,
    SelectValueOrNone,
}

/// An input to the inner, value-editing flow.
#[derive(Debug, PartialEq, Eq, Structural, Clone, Copy)]
pub enum EditorEvent {
    SubmitValue,
    SelectedValue,
    SelectedNone,
}

#[derive(Debug, PartialEq, Eq, Structural, Clone, Copy)]
pub enum Event {
    AppEvent(AppEvent),
    EditorEvent(EditorEvent),
}

/// One value shape that a configuration option may accept. `Option` marks
/// that the value may also be absent.
#[derive(Debug, PartialEq, Eq, Structural, Clone, Copy)]
pub enum ConfigurationOptionTypeFlag {
    Bool,
    U16,
    String,
    Option,
}

/// A set of shape flags, one membership bit per flag.
#[derive(Debug, PartialEq, Eq, Structural, Clone, Copy)]
pub struct ConfigurationOptionTypeFlags {
    pub bool_flag: bool,
    pub u16_flag: bool,
    pub string_flag: bool,
    pub option_flag: bool,
}

impl View for ConfigurationOptionTypeFlags {
    type V = Set<ConfigurationOptionTypeFlag>;

    open spec fn view(&self) -> Set<ConfigurationOptionTypeFlag> {
        Set::new(
            |f: ConfigurationOptionTypeFlag|
                match f {
                    ConfigurationOptionTypeFlag::Bool => self.bool_flag,
                    ConfigurationOptionTypeFlag::U16 => self.u16_flag,
                    ConfigurationOptionTypeFlag::String => self.string_flag,
                    ConfigurationOptionTypeFlag::Option => self.option_flag,
                },
        )
    }
}

/// Exactly one of the scalar shapes is set, and `Option` only beside a
/// number or a text.
pub open spec fn is_valid_shape(flags: Set<ConfigurationOptionTypeFlag>) -> bool {
    let b = flags.contains(ConfigurationOptionTypeFlag::Bool);
    let n = flags.contains(ConfigurationOptionTypeFlag::U16);
    let t = flags.contains(ConfigurationOptionTypeFlag::String);
    let o = flags.contains(ConfigurationOptionTypeFlag::Option);
    ((b && !n && !t) || (!b && n && !t) || (!b && !n && t)) && !(o && b)
}

impl ConfigurationOptionTypeFlags {
    pub fn empty() -> (r: Self)
        ensures
            r@ == Set::<ConfigurationOptionTypeFlag>::empty(),
    {
        let r = ConfigurationOptionTypeFlags {
            bool_flag: false,
            u16_flag: false,
            string_flag: false,
            option_flag: false,
        };
        assert(r@ =~= Set::<ConfigurationOptionTypeFlag>::empty());
        r
    }

    /// The same set with `flag` added.
    pub fn with(self, flag: ConfigurationOptionTypeFlag) -> (r: Self)
        ensures
            r@ == self@.insert(flag),
    {
        let mut r = self;
        match flag {
            ConfigurationOptionTypeFlag::Bool => r.bool_flag = true,
            ConfigurationOptionTypeFlag::U16 => r.u16_flag = true,
            ConfigurationOptionTypeFlag::String => r.string_flag = true,
            ConfigurationOptionTypeFlag::Option => r.option_flag = true,
        }
        assert(r@ =~= self@.insert(flag));
        r
    }

    pub fn contains(&self, flag: ConfigurationOptionTypeFlag) -> (r: bool)
        ensures
            r == self@.contains(flag),
    {
        match flag {
            ConfigurationOptionTypeFlag::Bool => self.bool_flag,
            ConfigurationOptionTypeFlag::U16 => self.u16_flag,
            ConfigurationOptionTypeFlag::String => self.string_flag,
            ConfigurationOptionTypeFlag::Option => self.option_flag,
        }
    }
}

/// Describes one editable field of the configuration: the field's name, the
/// text shown for it, and the value shapes it accepts.
#[derive(Debug, Clone)]
pub struct ConfigurationOption {
    pub property: String,
    pub name: String,
    pub description: String,
    pub type_flags: ConfigurationOptionTypeFlags,
}

/// What an event carries: the option picked from the menu, or a value to commit.
#[derive(Debug, Clone)]
pub enum Payload {
    ConfigurationOption(ConfigurationOption),
    ConfigurationOptionType(ConfigurationOptionType),
}

/// The editor that opens first for an option of the given shapes: presence
/// is asked first, then a boolean, a number or a text.
pub open spec fn first_editor_state(flags: Set<ConfigurationOptionTypeFlag>) -> EditorState {
    if flags.contains(ConfigurationOptionTypeFlag::Option) {
        EditorState::SelectValueOrNone
    } else if flags.contains(ConfigurationOptionTypeFlag::Bool) {
        EditorState::SelectOnOff
    } else if flags.contains(ConfigurationOptionTypeFlag::U16) {
        EditorState::NumberInput
    } else {
        EditorState::TextInput
    }
}

/// Whether an editor in state `e` can collect a value for an option of
/// these shapes.
pub open spec fn editor_fits(e: EditorState, flags: Set<ConfigurationOptionTypeFlag>) -> bool {
    match e {
        EditorState::SelectValueOrNone => flags.contains(ConfigurationOptionTypeFlag::Option),
        EditorState::SelectOnOff => flags.contains(ConfigurationOptionTypeFlag::Bool),
        EditorState::NumberInput => flags.contains(ConfigurationOptionTypeFlag::U16),
        EditorState::TextInput => flags.contains(ConfigurationOptionTypeFlag::String),
    }
}

/// The application's state machine: the outer state, the editor sub-state
/// and the option being edited, and the live configuration.
pub struct Machine {
    pub state: AppState,
    pub editor_state: Option<EditorState>,
    pub selected_configuration_option: Option<ConfigurationOption>,
    pub configuration: MinecraftServerConfiguration,
}

impl Machine {
    /// The states that dispatching from a fresh machine can reach: an editor
    /// and a selected option exist exactly while editing, the option has a
    /// valid shape, and the editor suits it.
    pub open spec fn wf(self) -> bool {
        if self.state == AppState::EditingConfiguration {
            &&& self.editor_state.is_some()
            &&& self.selected_configuration_option.is_some()
            &&& is_valid_shape(self.selected_configuration_option.unwrap().type_flags@)
            &&& editor_fits(
                self.editor_state.unwrap(),
                self.selected_configuration_option.unwrap().type_flags@,
            )
        } else {
            &&& self.editor_state.is_none()
            &&& self.selected_configuration_option.is_none()
        }
    }

    /// The calling contract of `dispatch`: an editor event needs an editor,
    /// each step that reads the selected option needs one, and each payload
    /// that a step reads has the variant that step expects.
    pub open spec fn accepts(self, event: Event, payload: Option<Payload>) -> bool {
        match event {
            Event::AppEvent(AppEvent::SelectedOption) => self.state == AppState::ChoiceMenu
                ==> payload matches Some(Payload::ConfigurationOption(_)),
            Event::AppEvent(_) => true,
            Event::EditorEvent(e) => {
                &&& self.editor_state.is_some()
                &&& match (self.editor_state.unwrap(), e) {
                    (EditorState::SelectOnOff, EditorEvent::SubmitValue) => {
                        &&& self.selected_configuration_option.is_some()
                        &&& payload matches Some(
                            Payload::ConfigurationOptionType(ConfigurationOptionType::Bool(_)),
                        )
                    },
                    (EditorState::NumberInput, EditorEvent::SubmitValue) => {
                        &&& self.selected_configuration_option.is_some()
                        &&& payload matches Some(
                            Payload::ConfigurationOptionType(ConfigurationOptionType::OptionU16(_)),
                        )
                    },
                    (EditorState::TextInput, EditorEvent::SubmitValue) => {
                        &&& self.selected_configuration_option.is_some()
                        &&& payload matches Some(
                            Payload::ConfigurationOptionType(
                                ConfigurationOptionType::OptionString(_),
                            ),
                        )
                    },
                    (EditorState::SelectValueOrNone, EditorEvent::SelectedValue) => {
                        self.selected_configuration_option.is_some()
                    },
                    (EditorState::SelectValueOrNone, EditorEvent::SelectedNone) => {
                        self.selected_configuration_option.is_some()
                    },
                    _ => true,
                }
            },
        }
    }

    /// Writing `v` into the selected option's field and going back to the menu.
    pub open spec fn committed(self, v: ConfigurationOptionType) -> Machine {
        Machine {
            state: AppState::ChoiceMenu,
            editor_state: None,
            selected_configuration_option: None,
            configuration: self.configuration.spec_set(
                self.selected_configuration_option.unwrap().property@,
                v,
            ),
        }
    }

    /// The machine after `event` with `payload`, by the transition tables of
    /// the outer and the inner flow; a pair that no row lists changes nothing.
    pub open spec fn next(self, event: Event, payload: Option<Payload>) -> Machine {
        match event {
            Event::AppEvent(e) => match (self.state, e) {
                (AppState::ChoiceMenu, AppEvent::StartServer) => Machine {
                    state: AppState::Running,
                    ..self
                },
                (AppState::ChoiceMenu, AppEvent::Exit) => Machine { state: AppState::Exited, ..self },
                (AppState::ChoiceMenu, AppEvent::SelectedOption) => match payload {
                    Some(Payload::ConfigurationOption(o)) => Machine {
                        state: AppState::EditingConfiguration,
                        editor_state: Some(first_editor_state(o.type_flags@)),
                        selected_configuration_option: Some(o),
                        ..self
                    },
                    _ => Machine { state: AppState::EditingConfiguration, ..self },
                },
                (AppState::Running, AppEvent::Exit) => Machine { state: AppState::Exited, ..self },
                _ => self,
            },
            Event::EditorEvent(e) => match (self.editor_state, e) {
                (Some(EditorState::SelectOnOff), EditorEvent::SubmitValue)
                | (Some(EditorState::NumberInput), EditorEvent::SubmitValue)
                | (Some(EditorState::TextInput), EditorEvent::SubmitValue) => match payload {
                    Some(Payload::ConfigurationOptionType(v)) => self.committed(v),
                    _ => self,
                },
                (Some(EditorState::SelectValueOrNone), EditorEvent::SelectedValue) => {
                    let flags = self.selected_configuration_option.unwrap().type_flags@;
                    if flags.contains(ConfigurationOptionTypeFlag::U16) {
                        Machine { editor_state: Some(EditorState::NumberInput), ..self }
                    } else if flags.contains(ConfigurationOptionTypeFlag::String) {
                        Machine { editor_state: Some(EditorState::TextInput), ..self }
                    } else {
                        self
                    }
                },
                (Some(EditorState::SelectValueOrNone), EditorEvent::SelectedNone) => {
                    let flags = self.selected_configuration_option.unwrap().type_flags@;
                    if flags.contains(ConfigurationOptionTypeFlag::U16) {
                        self.committed(ConfigurationOptionType::OptionU16(None))
                    } else if flags.contains(ConfigurationOptionTypeFlag::String) {
                        self.committed(ConfigurationOptionType::OptionString(None))
                    } else {
                        Machine { state: AppState::ChoiceMenu, editor_state: None, ..self }
                    }
                },
                _ => self,
            },
        }
    }

    /// A machine at the choice menu, with nothing selected.
    pub fn new(configuration: MinecraftServerConfiguration) -> (r: Machine)
        ensures
            r.state == AppState::ChoiceMenu,
            r.editor_state.is_none(),
            r.selected_configuration_option.is_none(),
            r.configuration == configuration,
            r.wf(),
    {
        Machine {
            state: AppState::ChoiceMenu,
            editor_state: None,
            selected_configuration_option: None,
            configuration,
        }
    }

    /// Writes `payload` into the field of the selected option, then forgets
    /// the selection.
    fn set_option_value(&mut self, payload: ConfigurationOptionType)
        requires
            old(self).selected_configuration_option.is_some(),
        ensures
            final(self).state == old(self).state,
            final(self).editor_state == old(self).editor_state,
            final(self).selected_configuration_option.is_none(),
            final(self).configuration == old(self).configuration.spec_set(
                old(self).selected_configuration_option.unwrap().property@,
                payload,
            ),
    {
        let property = match &self.selected_configuration_option {
            Some(option) => option.property.clone(),
            None => String::new(),
        };
        self.configuration.set(property, payload);
        self.selected_configuration_option = None;
    }

    /// Whether the selected option has the shape `flag`.
    fn selected_has(&self, flag: ConfigurationOptionTypeFlag) -> (r: bool)
        requires
            self.selected_configuration_option.is_some(),
        ensures
            r == self.selected_configuration_option.unwrap().type_flags@.contains(flag),
    {
        match &self.selected_configuration_option {
            Some(option) => option.type_flags.contains(flag),
            None => false,
        }
    }

    /// Whether `dispatch` may be called with this event and payload.
    pub fn can_dispatch(&self, event: Event, payload: &Option<Payload>) -> (r: bool)
        ensures
            r == self.accepts(event, *payload),
    {
        let has_selection = self.selected_configuration_option.is_some();
        match event {
            Event::AppEvent(AppEvent::SelectedOption) => {
                self.state != AppState::ChoiceMenu || matches!(
                    payload,
                    Some(Payload::ConfigurationOption(_))
                )
            },
            Event::AppEvent(_) => true,
            Event::EditorEvent(e) => match (self.editor_state, e) {
                (None, _) => false,
                (Some(EditorState::SelectOnOff), EditorEvent::SubmitValue) => {
                    has_selection && matches!(
                        payload,
                        Some(Payload::ConfigurationOptionType(ConfigurationOptionType::Bool(_)))
                    )
                },
                (Some(EditorState::NumberInput), EditorEvent::SubmitValue) => {
                    has_selection && matches!(
                        payload,
                        Some(Payload::ConfigurationOptionType(ConfigurationOptionType::OptionU16(_)))
                    )
                },
                (Some(EditorState::TextInput), EditorEvent::SubmitValue) => {
                    has_selection && matches!(
                        payload,
                        Some(
                            Payload::ConfigurationOptionType(ConfigurationOptionType::OptionString(_)),
                        )
                    )
                },
                (Some(EditorState::SelectValueOrNone), EditorEvent::SelectedValue) => has_selection,
                (Some(EditorState::SelectValueOrNone), EditorEvent::SelectedNone) => has_selection,
                _ => true,
            },
        }
    }

    /// Advances the machine by one event: the outer flow on an application
    /// event, the editor on an editor event. Committing a value is the one
    /// step that writes into the configuration.
    pub fn dispatch(&mut self, event: Event, payload: Option<Payload>)
        requires
            old(self).accepts(event, payload),
        ensures
            *final(self) == old(self).next(event, payload),
    {
        match event {
            Event::AppEvent(event) => {
                match (self.state, event) {
                    (AppState::ChoiceMenu, AppEvent::StartServer) => {
                        self.state = AppState::Running;
                    },
                    (AppState::ChoiceMenu, AppEvent::Exit) => {
                        self.state = AppState::Exited;
                    },
                    (AppState::ChoiceMenu, AppEvent::SelectedOption) => {
                        if let Some(Payload::ConfigurationOption(option)) = payload {
                            let editor = if option.type_flags.contains(
                                ConfigurationOptionTypeFlag::Option,
                            ) {
                                EditorState::SelectValueOrNone
                            } else if option.type_flags.contains(ConfigurationOptionTypeFlag::Bool) {
                                EditorState::SelectOnOff
                            } else if option.type_flags.contains(ConfigurationOptionTypeFlag::U16) {
                                EditorState::NumberInput
                            } else {
                                EditorState::TextInput
                            };
                            self.selected_configuration_option = Some(option);
                            self.editor_state = Some(editor);
                        }
                        self.state = AppState::EditingConfiguration;
                    },
                    (AppState::Running, AppEvent::Exit) => {
                        self.state = AppState::Exited;
                    },
                    _ => {},
                }
            },
            Event::EditorEvent(event) => {
                match (self.editor_state, event) {
                    (Some(EditorState::SelectOnOff), EditorEvent::SubmitValue)
                    | (Some(EditorState::NumberInput), EditorEvent::SubmitValue)
                    | (Some(EditorState::TextInput), EditorEvent::SubmitValue) => {
                        if let Some(Payload::ConfigurationOptionType(value)) = payload {
                            self.set_option_value(value);
                            self.state = AppState::ChoiceMenu;
                            self.editor_state = None;
                        }
                    },
                    (Some(EditorState::SelectValueOrNone), EditorEvent::SelectedValue) => {
                        if self.selected_has(ConfigurationOptionTypeFlag::U16) {
                            self.editor_state = Some(EditorState::NumberInput);
                        } else if self.selected_has(ConfigurationOptionTypeFlag::String) {
                            self.editor_state = Some(EditorState::TextInput);
                        }
                    },
                    (Some(EditorState::SelectValueOrNone), EditorEvent::SelectedNone) => {
                        if self.selected_has(ConfigurationOptionTypeFlag::U16) {
                            self.set_option_value(ConfigurationOptionType::OptionU16(None));
                        } else if self.selected_has(ConfigurationOptionTypeFlag::String) {
                            self.set_option_value(ConfigurationOptionType::OptionString(None));
                        }
                        self.state = AppState::ChoiceMenu;
                        self.editor_state = None;
                    },
                    _ => {},
                }
            },
        }
    }
}

/// The rows of the two transition tables: every outer event from the choice
/// menu, `Exit` while running, and while editing the editor rows that
/// submit, ask for a value, or choose none.
pub open spec fn is_listed(app: AppState, editor: Option<EditorState>, event: Event) -> bool {
    match event {
        Event::AppEvent(e) => match (app, e) {
            (AppState::ChoiceMenu, _) => true,
            (AppState::Running, AppEvent::Exit) => true,
            _ => false,
        },
        Event::EditorEvent(e) => {
            &&& app == AppState::EditingConfiguration
            &&& match (editor, e) {
                (Some(EditorState::SelectValueOrNone), EditorEvent::SubmitValue) => false,
                (Some(EditorState::SelectValueOrNone), _) => true,
                (Some(_), EditorEvent::SubmitValue) => true,
                _ => false,
            }
        },
    }
}

/// The option picked in a `SelectedOption` event from the menu has a valid shape.
pub open spec fn picks_valid_option(m: Machine, event: Event, payload: Option<Payload>) -> bool {
    (event == Event::AppEvent(AppEvent::SelectedOption) && m.state == AppState::ChoiceMenu) ==> (
    payload matches Some(Payload::ConfigurationOption(o)) && is_valid_shape(o.type_flags@))
}

/// Dispatching keeps a machine among the reachable states, given that the
/// options picked from the menu have valid shapes.
pub proof fn lemma_dispatch_keeps_wf(m: Machine, event: Event, payload: Option<Payload>)
    requires
        m.wf(),
        m.accepts(event, payload),
        picks_valid_option(m, event, payload),
    ensures
        m.next(event, payload).wf(),
{
}

/// In a reachable state, an event that no row of the tables lists leaves the
/// machine, and so both of its states, unchanged.
pub proof fn lemma_unlisted_pairs_change_nothing(m: Machine, event: Event, payload: Option<Payload>)
    requires
        m.wf(),
        m.accepts(event, payload),
        !is_listed(m.state, m.editor_state, event),
    ensures
        m.next(event, payload) == m,
{
}

/// An optional number opens on the presence choice, and choosing a value
/// then asks for a number; an optional text asks for a text.
pub proof fn lemma_optional_shapes(m: Machine, o: ConfigurationOption)
    requires
        m.state == AppState::ChoiceMenu,
        o.type_flags@ == set![ConfigurationOptionTypeFlag::Option, ConfigurationOptionTypeFlag::U16]
            || o.type_flags@ == set![
            ConfigurationOptionTypeFlag::Option,
            ConfigurationOptionTypeFlag::String,
        ],
    ensures
        ({
            let m1 = m.next(
                Event::AppEvent(AppEvent::SelectedOption),
                Some(Payload::ConfigurationOption(o)),
            );
            let m2 = m1.next(Event::EditorEvent(EditorEvent::SelectedValue), None);
            &&& m1.state == AppState::EditingConfiguration
            &&& m1.editor_state == Some(EditorState::SelectValueOrNone)
            &&& o.type_flags@.contains(ConfigurationOptionTypeFlag::U16) ==> m2.editor_state
                == Some(EditorState::NumberInput)
            &&& o.type_flags@.contains(ConfigurationOptionTypeFlag::String) ==> m2.editor_state
                == Some(EditorState::TextInput)
        }),
{
}

/// A boolean opens the on/off choice, a number alone the number input, a
/// text alone the text input.
pub proof fn lemma_scalar_shapes(m: Machine, o: ConfigurationOption)
    requires
        m.state == AppState::ChoiceMenu,
    ensures
        ({
            let m1 = m.next(
                Event::AppEvent(AppEvent::SelectedOption),
                Some(Payload::ConfigurationOption(o)),
            );
            &&& m1.state == AppState::EditingConfiguration
            &&& o.type_flags@ == set![ConfigurationOptionTypeFlag::Bool] ==> m1.editor_state == Some(
                EditorState::SelectOnOff,
            )
            &&& o.type_flags@ == set![ConfigurationOptionTypeFlag::U16] ==> m1.editor_state == Some(
                EditorState::NumberInput,
            )
            &&& o.type_flags@ == set![ConfigurationOptionTypeFlag::String] ==> m1.editor_state
                == Some(EditorState::TextInput)
        }),
{
}

/// Submitting a value writes it into the selected option's field and into
/// no other, clears the selection, and returns to the choice menu.
pub proof fn lemma_commit(m: Machine, v: ConfigurationOptionType)
    requires
        m.accepts(
            Event::EditorEvent(EditorEvent::SubmitValue),
            Some(Payload::ConfigurationOptionType(v)),
        ),
        m.editor_state != Some(EditorState::SelectValueOrNone),
    ensures
        ({
            let m1 = m.next(
                Event::EditorEvent(EditorEvent::SubmitValue),
                Some(Payload::ConfigurationOptionType(v)),
            );
            let p = m.selected_configuration_option.unwrap().property@;
            &&& m1.configuration == m.configuration.spec_set(p, v)
            &&& (is_property_name(p) && same_shape(m.configuration.spec_get(p), v))
                ==> m1.configuration.spec_get(p) == v
            &&& (is_property_name(p) && same_shape(m.configuration.spec_get(p), v))
                ==> forall|q: Seq<char>|
                q != p ==> #[trigger] m1.configuration.spec_get(q) == m.configuration.spec_get(q)
            &&& m1.selected_configuration_option.is_none()
            &&& m1.editor_state.is_none()
            &&& m1.state == AppState::ChoiceMenu
        }),
{
    let p = m.selected_configuration_option.unwrap().property@;
    if is_property_name(p) && same_shape(m.configuration.spec_get(p), v) {
        lemma_set_writes_only_that_field(m.configuration, p, v);
    }
}

/// Choosing none for an optional number commits an absent number to its
/// field; for an optional text, an absent text.
pub proof fn lemma_select_none(m: Machine)
    requires
        m.editor_state == Some(EditorState::SelectValueOrNone),
        m.selected_configuration_option.is_some(),
    ensures
        ({
            let m1 = m.next(Event::EditorEvent(EditorEvent::SelectedNone), None);
            let o = m.selected_configuration_option.unwrap();
            &&& o.type_flags@ == set![
                ConfigurationOptionTypeFlag::Option,
                ConfigurationOptionTypeFlag::U16,
            ] ==> m1 == m.committed(ConfigurationOptionType::OptionU16(None))
            &&& o.type_flags@ == set![
                ConfigurationOptionTypeFlag::Option,
                ConfigurationOptionTypeFlag::String,
            ] ==> m1 == m.committed(ConfigurationOptionType::OptionString(None))
        }),
{
}

} // verus!
