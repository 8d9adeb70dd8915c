//! The configuration of the dashboard, as plain values.

use vstd::prelude::*;

verus! {

/// The colours of the theme, by name.
#[derive(Clone, Debug)]
pub struct ColorConfig {
    pub accent: Option<String>,
    pub error: Option<String>,
    pub background: Option<String>,
}

/// What a `ColorConfig` stands for.
pub ghost struct ColorModel {
    pub accent: Option<Seq<char>>,
    pub error: Option<Seq<char>>,
    pub background: Option<Seq<char>>,
}

impl DeepView for ColorConfig {
    type V = ColorModel;

    open spec fn deep_view(&self) -> ColorModel {
        ColorModel {
            accent: self.accent.deep_view(),
            error: self.error.deep_view(),
            background: self.background.deep_view(),
        }
    }
}

impl Default for ColorConfig {
    fn default() -> (r: ColorConfig)
        ensures
            r.deep_view() == (ColorModel { accent: None, error: None, background: None }),
    {
        ColorConfig { accent: None, error: None, background: None }
    }
}

/// One entry of the command menu.
#[derive(Clone, Debug)]
pub struct CommandConfig {
    /// The name shown in the menu.
    pub name: String,
    /// The argument line handed to the tool.
    pub cmd: String,
    /// The follow-up step, by name.
    pub lfs: Option<String>,
    /// Whether the command needs the terminal for itself.
    pub interactive: bool,
}

/// What a `CommandConfig` stands for.
pub ghost struct CommandModel {
    pub name: Seq<char>,
    pub cmd: Seq<char>,
    pub lfs: Option<Seq<char>>,
    pub interactive: bool,
}

impl DeepView for CommandConfig {
    type V = CommandModel;

    open spec fn deep_view(&self) -> CommandModel {
        CommandModel {
            name: self.name@,
            cmd: self.cmd@,
            lfs: self.lfs.deep_view(),
            interactive: self.interactive,
        }
    }
}

/// The sizes of the panels, in cells.
#[derive(Clone, Copy, PartialEq, Eq, Structural, Debug)]
pub struct LayoutConfig {
    pub cmd_width: u16,
    pub files_height: u16,
    pub result_height: u16,
}

impl Default for LayoutConfig {
    fn default() -> (r: LayoutConfig)
        ensures
            r == (LayoutConfig { cmd_width: 32, files_height: 7, result_height: 5 }),
    {
        LayoutConfig { cmd_width: 32, files_height: 7, result_height: 5 }
    }
}

/// The whole configuration.
#[derive(Clone, Debug)]
pub struct Config {
    /// The path of the tool.
    pub git_path: String,
    pub colors: ColorConfig,
    pub layout: LayoutConfig,
    /// The template of the diff command; `{files}` stands for the paths.
    pub files_diff_cmd: Option<String>,
    pub commands: Vec<CommandConfig>,
}

/// What a `Config` stands for.
pub ghost struct ConfigModel {
    pub git_path: Seq<char>,
    pub colors: ColorModel,
    pub layout: LayoutConfig,
    pub files_diff_cmd: Option<Seq<char>>,
    pub commands: Seq<CommandModel>,
}

impl DeepView for Config {
    type V = ConfigModel;

    open spec fn deep_view(&self) -> ConfigModel {
        ConfigModel {
            git_path: self.git_path@,
            colors: self.colors.deep_view(),
            layout: self.layout,
            files_diff_cmd: self.files_diff_cmd.deep_view(),
            commands: self.commands.deep_view(),
        }
    }
}

} // verus!
