use vstd::prelude::*;

verus! {

/// The settings of a server, as they are edited and persisted.
///
/// Every field is defaulted on its own: a `None` port, universe or world
/// means "let the server use its default".
#[allow(non_snake_case)]
#[derive(Debug, Clone, PartialEq, Eq)]
pub struct MinecraftServerConfiguration {
    pub bonusChest: bool,
    pub demo: bool,
    pub eraseCache: bool,
    pub forceUpgrade: bool,
    pub initSettings: bool,
    pub gui: bool,
    pub port: Option<u16>,
    pub safeMode: bool,
    pub singleplayer: bool,
    pub universe: Option<String>,
    pub world: Option<String>,
}

/// A value read from, or committed to, one field of the configuration,
/// tagged with the field's shape.
#[derive(Debug, Clone, PartialEq, Eq)]
pub enum ConfigurationOptionType {
    Bool(bool),
    OptionU16(Option<u16>),
    OptionString(Option<String>),
}

/// The names of the configuration fields, in the order the record declares them.
pub open spec fn is_property_name(p: Seq<char>) -> bool {
    p == "bonusChest"@ || p == "demo"@ || p == "eraseCache"@ || p == "forceUpgrade"@
        || p == "initSettings"@ || p == "gui"@ || p == "port"@ || p == "safeMode"@
        || p == "singleplayer"@ || p == "universe"@ || p == "world"@
}

impl MinecraftServerConfiguration {
    /// The field named `p`, wrapped in the variant of its shape; an unknown
    /// name reads as an absent text value.
    pub open spec fn spec_get(self, p: Seq<char>) -> ConfigurationOptionType {
        if p == "bonusChest"@ {
            ConfigurationOptionType::Bool(self.bonusChest)
        } else if p == "demo"@ {
            ConfigurationOptionType::Bool(self.demo)
        } else if p == "eraseCache"@ {
            ConfigurationOptionType::Bool(self.eraseCache)
        } else if p == "forceUpgrade"@ {
            ConfigurationOptionType::Bool(self.forceUpgrade)
        } else if p == "initSettings"@ {
            ConfigurationOptionType::Bool(self.initSettings)
        } else if p == "gui"@ {
            ConfigurationOptionType::Bool(self.gui)
        } else if p == "port"@ {
            ConfigurationOptionType::OptionU16(self.port)
        } else if p == "safeMode"@ {
            ConfigurationOptionType::Bool(self.safeMode)
        } else if p == "singleplayer"@ {
            ConfigurationOptionType::Bool(self.singleplayer)
        } else if p == "universe"@ {
            ConfigurationOptionType::OptionString(self.universe)
        } else if p == "world"@ {
            ConfigurationOptionType::OptionString(self.world)
        } else {
            ConfigurationOptionType::OptionString(None)
        }
    }

    /// The record with the field named `p` replaced by `v`, where `p` names a
    /// field of `v`'s shape; otherwise the record unchanged.
    pub open spec fn spec_set(self, p: Seq<char>, v: ConfigurationOptionType) -> Self {
        match v {
            ConfigurationOptionType::Bool(b) => {
                if p == "bonusChest"@ {
                    MinecraftServerConfiguration { bonusChest: b, ..self }
                } else if p == "demo"@ {
                    MinecraftServerConfiguration { demo: b, ..self }
                } else if p == "eraseCache"@ {
                    MinecraftServerConfiguration { eraseCache: b, ..self }
                } else if p == "forceUpgrade"@ {
                    MinecraftServerConfiguration { forceUpgrade: b, ..self }
                } else if p == "initSettings"@ {
                    MinecraftServerConfiguration { initSettings: b, ..self }
                } else if p == "gui"@ {
                    MinecraftServerConfiguration { gui: b, ..self }
                } else if p == "safeMode"@ {
                    MinecraftServerConfiguration { safeMode: b, ..self }
                } else if p == "singleplayer"@ {
                    MinecraftServerConfiguration { singleplayer: b, ..self }
                } else {
                    self
                }
            },
            ConfigurationOptionType::OptionU16(n) => {
                if p == "port"@ {
                    MinecraftServerConfiguration { port: n, ..self }
                } else {
                    self
                }
            },
            ConfigurationOptionType::OptionString(s) => {
                if p == "universe"@ {
                    MinecraftServerConfiguration { universe: s, ..self }
                } else if p == "world"@ {
                    MinecraftServerConfiguration { world: s, ..self }
                } else {
                    self
                }
            },
        }
    }

    /// Writes `value` into the field named `property` when that field has the
    /// value's shape; any other name leaves the record as it is.
    pub fn set(&mut self, property: String, value: ConfigurationOptionType)
        ensures
            *final(self) == old(self).spec_set(property@, value),
    {
        match value {
            ConfigurationOptionType::Bool(value) => {
                if is_named(&property, "bonusChest") {
                    self.bonusChest = value;
                } else if is_named(&property, "demo") {
                    self.demo = value;
                } else if is_named(&property, "eraseCache") {
                    self.eraseCache = value;
                } else if is_named(&property, "forceUpgrade") {
                    self.forceUpgrade = value;
                } else if is_named(&property, "initSettings") {
                    self.initSettings = value;
                } else if is_named(&property, "gui") {
                    self.gui = value;
                } else if is_named(&property, "safeMode") {
                    self.safeMode = value;
                } else if is_named(&property, "singleplayer") {
                    self.singleplayer = value;
                }
            },
            ConfigurationOptionType::OptionU16(value) => {
                if is_named(&property, "port") {
                    self.port = value;
                }
            },
            ConfigurationOptionType::OptionString(value) => {
                if is_named(&property, "universe") {
                    self.universe = value;
                } else if is_named(&property, "world") {
                    self.world = value;
                }
            },
        }
    }

    /// Reads the field named `property`, wrapped in the variant of its shape.
    /// A name that is no field reads as `OptionString(None)`.
    pub fn get(&self, property: String) -> (r: ConfigurationOptionType)
        ensures
            r == self.spec_get(property@),
    {
        if is_named(&property, "bonusChest") {
            ConfigurationOptionType::Bool(self.bonusChest)
        } else if is_named(&property, "demo") {
            ConfigurationOptionType::Bool(self.demo)
        } else if is_named(&property, "eraseCache") {
            ConfigurationOptionType::Bool(self.eraseCache)
        } else if is_named(&property, "forceUpgrade") {
            ConfigurationOptionType::Bool(self.forceUpgrade)
        } else if is_named(&property, "initSettings") {
            ConfigurationOptionType::Bool(self.initSettings)
        } else if is_named(&property, "gui") {
            ConfigurationOptionType::Bool(self.gui)
        } else if is_named(&property, "port") {
            ConfigurationOptionType::OptionU16(self.port)
        } else if is_named(&property, "safeMode") {
            ConfigurationOptionType::Bool(self.safeMode)
        } else if is_named(&property, "singleplayer") {
            ConfigurationOptionType::Bool(self.singleplayer)
        } else if is_named(&property, "universe") {
            ConfigurationOptionType::OptionString(copy_text(&self.universe))
        } else if is_named(&property, "world") {
            ConfigurationOptionType::OptionString(copy_text(&self.world))
        } else {
            ConfigurationOptionType::OptionString(None)
        }
    }
}

impl Default for MinecraftServerConfiguration {
    /// The settings used when none are stored: the bonus chest on, every
    /// other switch off, and every optional value absent.
    fn default() -> (r: Self)
        ensures
            r == (MinecraftServerConfiguration {
                bonusChest: true,
                demo: false,
                eraseCache: false,
                forceUpgrade: false,
                initSettings: false,
                gui: false,
                port: None,
                safeMode: false,
                singleplayer: false,
                universe: None,
                world: None,
            }),
    {
        MinecraftServerConfiguration {
            bonusChest: true,
            demo: false,
            eraseCache: false,
            forceUpgrade: false,
            initSettings: false,
            gui: false,
            port: None,
            safeMode: false,
            singleplayer: false,
            universe: None,
            world: None,
        }
    }
}

/// Whether `property` is exactly the text `name`.
fn is_named(property: &String, name: &str) -> (r: bool)
    ensures
        r == (property@ == name@),
{
    let name: String = name.to_owned();
    property.eq(&name)
}

fn copy_text(s: &Option<String>) -> (r: Option<String>)
    ensures
        r == *s,
{
    match s {
        Some(t) => Some(t.clone()),
        None => None,
    }
}

/// Writing back the value that was just read changes nothing, for every
/// field name and for every other name as well.
pub proof fn lemma_set_get_round_trip(c: MinecraftServerConfiguration, p: Seq<char>)
    ensures
        c.spec_set(p, c.spec_get(p)) == c,
{
}

/// Whether two values carry the same shape.
pub open spec fn same_shape(a: ConfigurationOptionType, b: ConfigurationOptionType) -> bool {
    match (a, b) {
        (ConfigurationOptionType::Bool(_), ConfigurationOptionType::Bool(_)) => true,
        (ConfigurationOptionType::OptionU16(_), ConfigurationOptionType::OptionU16(_)) => true,
        (ConfigurationOptionType::OptionString(_), ConfigurationOptionType::OptionString(_)) => true,
        _ => false,
    }
}

/// Setting a field to a value of its own shape makes that field read back
/// the value, and every other name reads as before.
pub proof fn lemma_set_writes_only_that_field(
    c: MinecraftServerConfiguration,
    p: Seq<char>,
    v: ConfigurationOptionType,
)
    requires
        is_property_name(p),
        same_shape(c.spec_get(p), v),
    ensures
        c.spec_set(p, v).spec_get(p) == v,
        forall|q: Seq<char>| q != p ==> #[trigger] c.spec_set(p, v).spec_get(q) == c.spec_get(q),
{
    reveal_strlit("bonusChest");
    reveal_strlit("demo");
    reveal_strlit("eraseCache");
    reveal_strlit("forceUpgrade");
    reveal_strlit("initSettings");
    reveal_strlit("gui");
    reveal_strlit("port");
    reveal_strlit("safeMode");
    reveal_strlit("singleplayer");
    reveal_strlit("universe");
    reveal_strlit("world");
}

} // verus!
