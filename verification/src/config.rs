//! User settings: panel layout, hidden files, preview, default path and the
//! saved connection bookmarks. Reading and writing the settings file is done
//! by the application around the library.
use vstd::prelude::*;

verus! {

/// Panel layout orientation.
#[derive(Clone, Copy, PartialEq, Eq, Structural, Debug)]
pub enum PanelLayout {
    Auto,
    Horizontal,
    Vertical,
}

impl Default for PanelLayout {
    fn default() -> (r: PanelLayout)
        ensures
            r == PanelLayout::Auto,
    {
        PanelLayout::Auto
    }
}

impl PanelLayout {
    /// The next layout in the cycle Auto, Horizontal, Vertical.
    pub open spec fn spec_next(self) -> PanelLayout {
        match self {
            PanelLayout::Auto => PanelLayout::Horizontal,
            PanelLayout::Horizontal => PanelLayout::Vertical,
            PanelLayout::Vertical => PanelLayout::Auto,
        }
    }

    /// The previous layout in the cycle.
    pub open spec fn spec_prev(self) -> PanelLayout {
        match self {
            PanelLayout::Auto => PanelLayout::Vertical,
            PanelLayout::Horizontal => PanelLayout::Auto,
            PanelLayout::Vertical => PanelLayout::Horizontal,
        }
    }

    /// The name shown in the settings popup.
    pub open spec fn spec_name(self) -> Seq<char> {
        match self {
            PanelLayout::Auto => "Auto"@,
            PanelLayout::Horizontal => "Horizontal"@,
            PanelLayout::Vertical => "Vertical"@,
        }
    }

    pub fn next(self) -> (r: Self)
        ensures
            r == self.spec_next(),
    {
        match self {
            Self::Auto => Self::Horizontal,
            Self::Horizontal => Self::Vertical,
            Self::Vertical => Self::Auto,
        }
    }

    pub fn prev(self) -> (r: Self)
        ensures
            r == self.spec_prev(),
    {
        match self {
            Self::Auto => Self::Vertical,
            Self::Horizontal => Self::Auto,
            Self::Vertical => Self::Horizontal,
        }
    }

    pub fn as_str(self) -> (r: &'static str)
        ensures
            r@ == self.spec_name(),
    {
        match self {
            Self::Auto => "Auto",
            Self::Horizontal => "Horizontal",
            Self::Vertical => "Vertical",
        }
    }
}

/// `prev` undoes `next` and `next` undoes `prev`: the layouts form one cycle.
pub proof fn lemma_layout_next_prev_inverse(l: PanelLayout)
    ensures
        l.spec_next().spec_prev() == l,
        l.spec_prev().spec_next() == l,
{
}

/// Three steps of `next` come back to where they started.
pub proof fn lemma_layout_cycle_of_three(l: PanelLayout)
    ensures
        l.spec_next().spec_next().spec_next() == l,
        l.spec_next() != l,
{
}

/// A saved connection (passwords are never saved).
#[derive(Debug)]
pub struct ConnectionProfile {
    pub name: String,
    pub protocol: String,
    pub host: String,
    pub port: u16,
    pub username: String,
    pub key_path: Option<String>,
}

impl Clone for ConnectionProfile {
    fn clone(&self) -> (r: ConnectionProfile)
        ensures
            r == *self,
    {
        ConnectionProfile {
            name: self.name.clone(),
            protocol: self.protocol.clone(),
            host: self.host.clone(),
            port: self.port,
            username: self.username.clone(),
            key_path: match &self.key_path {
                Some(k) => Some(k.clone()),
                None => None,
            },
        }
    }
}

/// General settings.
pub struct GeneralConfig {
    pub show_hidden: bool,
    pub default_path: String,
    pub show_preview_on_start: bool,
    pub panel_layout: PanelLayout,
}

impl Default for GeneralConfig {
    fn default() -> (r: GeneralConfig)
        ensures
            !r.show_hidden,
            r.default_path@ == "."@,
            !r.show_preview_on_start,
            r.panel_layout == PanelLayout::Auto,
    {
        GeneralConfig {
            show_hidden: false,
            default_path: crate::text::owned("."),
            show_preview_on_start: false,
            panel_layout: PanelLayout::Auto,
        }
    }
}

impl Clone for GeneralConfig {
    fn clone(&self) -> (r: GeneralConfig)
        ensures
            r == *self,
    {
        GeneralConfig {
            show_hidden: self.show_hidden,
            default_path: self.default_path.clone(),
            show_preview_on_start: self.show_preview_on_start,
            panel_layout: self.panel_layout,
        }
    }
}

/// All settings.
pub struct Config {
    pub general: GeneralConfig,
    pub connections: Vec<ConnectionProfile>,
}

impl Default for Config {
    fn default() -> (r: Config)
        ensures
            !r.general.show_hidden,
            r.general.default_path@ == "."@,
            !r.general.show_preview_on_start,
            r.general.panel_layout == PanelLayout::Auto,
            r.connections@.len() == 0,
    {
        Config { general: GeneralConfig::default(), connections: Vec::new() }
    }
}

impl Clone for Config {
    fn clone(&self) -> (r: Config)
        ensures
            r.general == self.general,
            r.connections@ == self.connections@,
    {
        let mut connections: Vec<ConnectionProfile> = Vec::new();
        let mut i: usize = 0;
        while i < self.connections.len()
            invariant
                i <= self.connections.len(),
                connections@ == self.connections@.take(i as int),
            decreases self.connections.len() - i,
        {
            connections.push(self.connections[i].clone());
            i = i + 1;
            assert(connections@ == self.connections@.take(i as int));
        }
        assert(self.connections@.take(i as int) == self.connections@);
        Config { general: self.general.clone(), connections }
    }
}

} // verus!
