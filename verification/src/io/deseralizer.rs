//! The records that describe a composition before it is compiled. Every
//! part of a description may be left out; what is left out falls back to a
//! default.

use vstd::prelude::*;

verus! {

/// Chords declared by a composition: name and intervals.
pub type CustomChords = Vec<(String, Vec<i8>)>;

/// One event of a pattern: bar, beat, beat interval, chord token and
/// transposition in semitones.
pub type PatternObject = (u16, u8, u8, String, i8);

/// Tempo in beats per minute where none is given.
pub const DEFAULT_TIME: u8 = 120;

/// Time signature where none is given.
pub const DEFAULT_SIGNATURE: (u8, u8) = (4, 4);

/// The key where none is given.
pub open spec fn default_key() -> Seq<char> {
    "C"@
}

/// The name of a composition where none is given.
pub open spec fn default_composition_name() -> Seq<char> {
    "Unnamed composition"@
}

/// Key, tempo and time signature, each of which may be left out.
#[derive(Debug, PartialEq, Clone)]
pub struct MasterParameters {
    pub key: Option<String>,
    pub time: Option<u8>,
    pub signature: Option<(u8, u8)>,
}

/// The description of one pattern.
#[derive(Debug, PartialEq)]
pub struct PatternParameters {
    pub name: Option<String>,
    pub master: Option<MasterParameters>,
    pub pattern: Option<Vec<PatternObject>>,
}

/// The description of a composition.
#[derive(Debug, PartialEq)]
pub struct CompositionParameters {
    pub name: Option<String>,
    pub master: Option<MasterParameters>,
    pub chords: Option<CustomChords>,
    pub patterns: Option<Vec<PatternParameters>>,
}

impl CompositionParameters {
    /// The name given, or the default name.
    pub open spec fn name_or_default(&self) -> Seq<char> {
        match self.name {
            Some(name) => name@,
            None => default_composition_name(),
        }
    }

    /// A description with every part left out.
    pub fn new() -> (params: Self)
        ensures
            params.name.is_none(),
            params.master.is_none(),
            params.chords.is_none(),
            params.patterns.is_none(),
    {
        Self { name: None, master: None, chords: None, patterns: None }
    }

    pub fn get_name(&self) -> (name: String)
        ensures
            name@ == self.name_or_default(),
    {
        match &self.name {
            Some(name) => name.clone(),
            None => "Unnamed composition".to_owned(),
        }
    }

    pub fn get_master(&self) -> (master: &Option<MasterParameters>)
        ensures
            *master == self.master,
    {
        &self.master
    }

    pub fn get_custom_chords(&self) -> (chords: &Option<CustomChords>)
        ensures
            *chords == self.chords,
    {
        &self.chords
    }

    pub fn get_patterns(&self) -> (patterns: &Option<Vec<PatternParameters>>)
        ensures
            *patterns == self.patterns,
    {
        &self.patterns
    }
}

impl MasterParameters {
    /// The key given, or the default key.
    pub open spec fn key_or_default(&self) -> Seq<char> {
        match self.key {
            Some(key) => key@,
            None => default_key(),
        }
    }

    /// The tempo given, or the default tempo.
    pub open spec fn time_or_default(&self) -> u8 {
        match self.time {
            Some(time) => time,
            None => DEFAULT_TIME,
        }
    }

    /// The time signature given, or the default signature.
    pub open spec fn signature_or_default(&self) -> (u8, u8) {
        match self.signature {
            Some(signature) => signature,
            None => DEFAULT_SIGNATURE,
        }
    }

    /// The parameters of `overrides`, each one that is left out taken from
    /// `defaults`, and from the built-in defaults where `defaults` leaves it
    /// out too.
    pub fn from_overrides(defaults: &MasterParameters, overrides: &MasterParameters) -> (master:
        Self)
        ensures
            master.key.is_some(),
            master.key_or_default() == if overrides.key.is_some() {
                overrides.key_or_default()
            } else {
                defaults.key_or_default()
            },
            master.time == Some(
                if overrides.time.is_some() {
                    overrides.time_or_default()
                } else {
                    defaults.time_or_default()
                },
            ),
            master.signature == Some(
                if overrides.signature.is_some() {
                    overrides.signature_or_default()
                } else {
                    defaults.signature_or_default()
                },
            ),
    {
        let key = Some(
            match &overrides.key {
                Some(key) => key.clone(),
                None => defaults.get_key_or_default(),
            },
        );
        let time = Some(
            match overrides.time {
                Some(time) => time,
                None => defaults.get_time_or_default(),
            },
        );
        let signature = Some(
            match overrides.signature {
                Some(signature) => signature,
                None => defaults.get_signature_or_default(),
            },
        );
        Self { key, time, signature }
    }

    pub fn get_key(&self) -> (key: Option<String>)
        ensures
            key == self.key,
    {
        match &self.key {
            Some(key) => Some(key.clone()),
            None => None,
        }
    }

    pub fn get_key_or_default(&self) -> (key: String)
        ensures
            key@ == self.key_or_default(),
    {
        match &self.key {
            Some(key) => key.clone(),
            None => "C".to_owned(),
        }
    }

    pub fn get_time(&self) -> (time: Option<u8>)
        ensures
            time == self.time,
    {
        self.time
    }

    pub fn get_time_or_default(&self) -> (time: u8)
        ensures
            time == self.time_or_default(),
    {
        match self.time {
            Some(time) => time,
            None => DEFAULT_TIME,
        }
    }

    pub fn get_signature(&self) -> (signature: Option<(u8, u8)>)
        ensures
            signature == self.signature,
    {
        self.signature
    }

    pub fn get_signature_or_default(&self) -> (signature: (u8, u8))
        ensures
            signature == self.signature_or_default(),
    {
        match self.signature {
            Some(signature) => signature,
            None => DEFAULT_SIGNATURE,
        }
    }

    pub fn get_all_or_defaults(&self) -> (all: (String, u8, (u8, u8)))
        ensures
            all.0@ == self.key_or_default(),
            all.1 == self.time_or_default(),
            all.2 == self.signature_or_default(),
    {
        (self.get_key_or_default(), self.get_time_or_default(), self.get_signature_or_default())
    }
}

impl Default for MasterParameters {
    /// The built-in defaults, each given in full.
    fn default() -> (master: Self)
        ensures
            master.key.is_some(),
            master.key_or_default() == default_key(),
            master.time == Some(DEFAULT_TIME),
            master.signature == Some(DEFAULT_SIGNATURE),
    {
        Self { key: Some("C".to_owned()), time: Some(DEFAULT_TIME), signature: Some(DEFAULT_SIGNATURE) }
    }
}

impl PatternParameters {
    pub fn get_name(&self) -> (name: &Option<String>)
        ensures
            *name == self.name,
    {
        &self.name
    }

    pub fn get_pattern(&self) -> (pattern: &Option<Vec<PatternObject>>)
        ensures
            *pattern == self.pattern,
    {
        &self.pattern
    }

    pub fn get_master(&self) -> (master: &Option<MasterParameters>)
        ensures
            *master == self.master,
    {
        &self.master
    }
}

} // verus!
