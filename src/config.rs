//! User settings and theme colours, as read from the configuration file.
use vstd::prelude::*;
use crate::theme::{theme_of, Theme};

verus! {

#[derive(Debug)]
pub struct Config {
    pub settings: Settings,
    pub theme_config: ThemeConfig,
}

#[derive(Debug)]
pub struct Settings {
    pub show_icons: bool,
    pub default_view: String,
    pub template_engine: String,
}

/// Colours as hex text, such as "#cdd6f4", and the border type by name.
#[derive(Debug)]
pub struct ThemeConfig {
    pub border_color: String,
    pub highlight: ThemeHighlight,
    pub text_color: String,
    pub border_type: Option<String>,
}

#[derive(Debug)]
pub struct ThemeHighlight {
    pub bg: String,
    pub fg: String,
}

impl Default for Config {
    /// Icons on, the main view, tmuxifier templates, and a dark palette with
    /// rounded borders.
    fn default() -> (r: Config)
        ensures
            r.settings.show_icons,
            r.settings.default_view@ == "main"@,
            r.settings.template_engine@ == "tmuxifier"@,
            r.theme_config.border_color@ == "#6c7086"@,
            r.theme_config.highlight.bg@ == "#89b4fa"@,
            r.theme_config.highlight.fg@ == "#1e1e2e"@,
            r.theme_config.text_color@ == "#cdd6f4"@,
            r.theme_config.border_type matches Some(b) && b@ == "Rounded"@,
    {
        Config {
            settings: Settings {
                show_icons: true,
                default_view: String::from_str("main"),
                template_engine: String::from_str("tmuxifier"),
            },
            theme_config: ThemeConfig {
                border_color: String::from_str("#6c7086"),
                highlight: ThemeHighlight {
                    bg: String::from_str("#89b4fa"),
                    fg: String::from_str("#1e1e2e"),
                },
                text_color: String::from_str("#cdd6f4"),
                border_type: Some(String::from_str("Rounded")),
            },
        }
    }
}

impl Config {
    /// The theme this configuration describes.
    pub fn theme(&self) -> (r: Theme)
        ensures
            r == theme_of(*self),
    {
        Theme::from_config(self)
    }
}

} // verus!
