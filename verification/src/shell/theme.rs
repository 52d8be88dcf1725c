//! The control shell's visual themes: banners, prompts and the colours of
//! each kind of output.
use vstd::prelude::*;
use crate::text::{cat, cat3, lowercase, owned, str_eq, to_lower};

verus! {

/// A look for the control shell.
#[derive(Debug, Clone, Copy, PartialEq, Eq, Structural)]
pub enum Theme {
    Default,
    Fsociety,
    Allsafe,
    DarkArmy,
}

/// The banner shown when the shell starts.
pub open spec fn banner(t: Theme) -> Seq<char> {
    match t {
        Theme::Default => r#"
╔══════════════════════════════════════════╗
║       PhantomKernel OS Shell v0.1.0        ║
║     Privacy-First Control Interface      ║
╚══════════════════════════════════════════╝
"#@,
        Theme::Fsociety => r#"
   ██████╗ ███████╗████████╗██████╗  ██████╗ 
  ██╔════╝ ██╔════╝╚══██╔══╝██╔══██╗██╔═══██╗
  ██║  ███╗█████╗     ██║   ██████╔╝██║   ██║
  ██║   ██║██╔══╝     ██║   ██╔══██╗██║   ██║
  ╚██████╔╝███████╗   ██║   ██║  ██║╚██████╔╝
   ╚═════╝ ╚══════╝   ╚═╝   ╚═╝  ╚═╝ ╚═════╝ 
                                            
  [ CONTROL TERMINAL v0.1.0 ]
  [ fsociety theme active ]
  [ all your privacy are belong to us ]
"#@,
        Theme::Allsafe => r#"
┌──────────────────────────────────────────┐
│  PhantomKernel OS | Allsafe Security      │
│  Secure Control Interface v0.1.0         │
└──────────────────────────────────────────┘
"#@,
        Theme::DarkArmy => r#"
▓▓▓▓▓▓▓▓▓▓▓▓▓▓▓▓▓▓▓▓▓▓▓▓▓▓▓▓▓▓▓▓▓▓▓▓▓▓▓▓▓▓
  PHANTOMKERNEL // DARKARMY MODE
  SURVEILLANCE COUNTERMEASURES ACTIVE
▓▓▓▓▓▓▓▓▓▓▓▓▓▓▓▓▓▓▓▓▓▓▓▓▓▓▓▓▓▓▓▓▓▓▓▓▓▓▓▓▓▓
"#@,
    }
}

/// The text written before ordinary output.
pub open spec fn output_prefix(t: Theme) -> Seq<char> {
    match t {
        Theme::Default => ""@,
        Theme::Fsociety => "\x1b[32m"@,
        Theme::Allsafe => "\x1b[36m"@,
        Theme::DarkArmy => "\x1b[1;37m"@,
    }
}

/// The text written after ordinary output.
pub open spec fn output_suffix(t: Theme) -> Seq<char> {
    match t {
        Theme::Default => ""@,
        Theme::Fsociety => "\x1b[0m"@,
        Theme::Allsafe => "\x1b[0m"@,
        Theme::DarkArmy => "\x1b[0m"@,
    }
}

/// The text written before errors.
pub open spec fn error_prefix(t: Theme) -> Seq<char> {
    match t {
        Theme::Default => "\x1b[31m"@,
        Theme::Fsociety => "\x1b[1;31m[!]\x1b[0m \x1b[31m"@,
        Theme::Allsafe => "\x1b[31mError: "@,
        Theme::DarkArmy => "\x1b[1;31m[ERR]\x1b[0m \x1b[31m"@,
    }
}

/// The text written after errors.
pub open spec fn error_suffix(t: Theme) -> Seq<char> {
    match t {
        Theme::Default => "\x1b[0m"@,
        Theme::Fsociety => "\x1b[0m"@,
        Theme::Allsafe => "\x1b[0m"@,
        Theme::DarkArmy => "\x1b[0m"@,
    }
}

/// The text written before section headings.
pub open spec fn section_prefix(t: Theme) -> Seq<char> {
    match t {
        Theme::Default => "\x1b[1m"@,
        Theme::Fsociety => "\x1b[1;35m## "@,
        Theme::Allsafe => "\x1b[1;34m── "@,
        Theme::DarkArmy => "\x1b[1;33m["@,
    }
}

/// The text written after section headings.
pub open spec fn section_suffix(t: Theme) -> Seq<char> {
    match t {
        Theme::Default => "\x1b[0m"@,
        Theme::Fsociety => "\x1b[0m"@,
        Theme::Allsafe => " ──\x1b[0m"@,
        Theme::DarkArmy => "]\x1b[0m"@,
    }
}

/// The text written before successes.
pub open spec fn success_prefix(t: Theme) -> Seq<char> {
    match t {
        Theme::Default => "\x1b[32m"@,
        Theme::Fsociety => "\x1b[1;32m[+]\x1b[0m \x1b[32m"@,
        Theme::Allsafe => "\x1b[32m✓ "@,
        Theme::DarkArmy => "\x1b[1;32m[OK]\x1b[0m \x1b[32m"@,
    }
}

/// The text written after successes.
pub open spec fn success_suffix(t: Theme) -> Seq<char> {
    match t {
        Theme::Default => "\x1b[0m"@,
        Theme::Fsociety => "\x1b[0m"@,
        Theme::Allsafe => "\x1b[0m"@,
        Theme::DarkArmy => "\x1b[0m"@,
    }
}

/// The text written before warnings.
pub open spec fn warning_prefix(t: Theme) -> Seq<char> {
    match t {
        Theme::Default => "\x1b[33m"@,
        Theme::Fsociety => "\x1b[1;33m[!]\x1b[0m \x1b[33m"@,
        Theme::Allsafe => "\x1b[33m⚠ "@,
        Theme::DarkArmy => "\x1b[1;33m[WARN]\x1b[0m \x1b[33m"@,
    }
}

/// The text written after warnings.
pub open spec fn warning_suffix(t: Theme) -> Seq<char> {
    match t {
        Theme::Default => "\x1b[0m"@,
        Theme::Fsociety => "\x1b[0m"@,
        Theme::Allsafe => "\x1b[0m"@,
        Theme::DarkArmy => "\x1b[0m"@,
    }
}

/// The text written before information.
pub open spec fn info_prefix(t: Theme) -> Seq<char> {
    match t {
        Theme::Default => "\x1b[36m"@,
        Theme::Fsociety => "\x1b[36m[*]\x1b[0m \x1b[36m"@,
        Theme::Allsafe => "\x1b[34mℹ "@,
        Theme::DarkArmy => "\x1b[1;34m[INFO]\x1b[0m \x1b[34m"@,
    }
}

/// The text written after information.
pub open spec fn info_suffix(t: Theme) -> Seq<char> {
    match t {
        Theme::Default => "\x1b[0m"@,
        Theme::Fsociety => "\x1b[0m"@,
        Theme::Allsafe => "\x1b[0m"@,
        Theme::DarkArmy => "\x1b[0m"@,
    }
}

/// The prompt shown for the current shard ("system" when none is selected).
pub open spec fn prompt_text(t: Theme, shard: Seq<char>) -> Seq<char> {
    match t {
        Theme::Default => "gksh ["@ + shard + "]$ "@,
        Theme::Fsociety => "\x1b[31mroot@fsociety\x1b[0m:\x1b[34m"@ + shard + "\x1b[0m$ "@,
        Theme::Allsafe => "allsafe@"@ + shard + "> "@,
        Theme::DarkArmy => "[DARKARMY::"@ + shard + "]# "@,
    }
}

/// The hint about the help command.
pub open spec fn help_hint(t: Theme) -> Seq<char> {
    match t {
        Theme::Default => "Type 'help' for commands."@,
        Theme::Fsociety => "[?] type 'help' for command list"@,
        Theme::Allsafe => "Hint: Type 'help' to see available commands"@,
        Theme::DarkArmy => "[INPUT] 'help' :: display commands"@,
    }
}

impl Theme {
    /// The banner shown when the shell starts.
    pub fn welcome_banner(&self) -> (r: String)
        ensures
            r@ == banner(*self),
    {
        match self {
            Theme::Default => owned(r#"
╔══════════════════════════════════════════╗
║       PhantomKernel OS Shell v0.1.0        ║
║     Privacy-First Control Interface      ║
╚══════════════════════════════════════════╝
"#),
            Theme::Fsociety => owned(r#"
   ██████╗ ███████╗████████╗██████╗  ██████╗ 
  ██╔════╝ ██╔════╝╚══██╔══╝██╔══██╗██╔═══██╗
  ██║  ███╗█████╗     ██║   ██████╔╝██║   ██║
  ██║   ██║██╔══╝     ██║   ██╔══██╗██║   ██║
  ╚██████╔╝███████╗   ██║   ██║  ██║╚██████╔╝
   ╚═════╝ ╚══════╝   ╚═╝   ╚═╝  ╚═╝ ╚═════╝ 
                                            
  [ CONTROL TERMINAL v0.1.0 ]
  [ fsociety theme active ]
  [ all your privacy are belong to us ]
"#),
            Theme::Allsafe => owned(r#"
┌──────────────────────────────────────────┐
│  PhantomKernel OS | Allsafe Security      │
│  Secure Control Interface v0.1.0         │
└──────────────────────────────────────────┘
"#),
            Theme::DarkArmy => owned(r#"
▓▓▓▓▓▓▓▓▓▓▓▓▓▓▓▓▓▓▓▓▓▓▓▓▓▓▓▓▓▓▓▓▓▓▓▓▓▓▓▓▓▓
  PHANTOMKERNEL // DARKARMY MODE
  SURVEILLANCE COUNTERMEASURES ACTIVE
▓▓▓▓▓▓▓▓▓▓▓▓▓▓▓▓▓▓▓▓▓▓▓▓▓▓▓▓▓▓▓▓▓▓▓▓▓▓▓▓▓▓
"#),
        }
    }

    /// The hint about the help command.
    pub fn prompt_help(&self) -> (r: String)
        ensures
            r@ == help_hint(*self),
    {
        match self {
            Theme::Default => owned("Type 'help' for commands."),
            Theme::Fsociety => owned("[?] type 'help' for command list"),
            Theme::Allsafe => owned("Hint: Type 'help' to see available commands"),
            Theme::DarkArmy => owned("[INPUT] 'help' :: display commands"),
        }
    }

    /// The prompt for the current shard.
    pub fn prompt(&self, current_shard: &Option<String>) -> (r: String)
        ensures
            r@ == prompt_text(*self, match current_shard { Some(s) => s@, None => "system"@ }),
    {
        let shard: &str = match current_shard {
            Some(s) => s.as_str(),
            None => "system",
        };
        match self {
            Theme::Default => cat3("gksh [", shard, "]$ "),
            Theme::Fsociety => cat3("\x1b[31mroot@fsociety\x1b[0m:\x1b[34m", shard, "\x1b[0m$ "),
            Theme::Allsafe => cat3("allsafe@", shard, "> "),
            Theme::DarkArmy => cat3("[DARKARMY::", shard, "]# "),
        }
    }

    /// `text` styled as ordinary output.
    pub fn style_output(&self, text: String) -> (r: String)
        ensures
            r@ == output_prefix(*self) + text@ + output_suffix(*self),
    {
        match self {
            Theme::Default => {
                proof {
                    assert(output_prefix(Theme::Default) + text@ + output_suffix(Theme::Default) =~= text@) by {
                        reveal_strlit("");
                    }
                }
                text
            },
            Theme::Fsociety => cat3("\x1b[32m", text.as_str(), "\x1b[0m"),
            Theme::Allsafe => cat3("\x1b[36m", text.as_str(), "\x1b[0m"),
            Theme::DarkArmy => cat3("\x1b[1;37m", text.as_str(), "\x1b[0m"),
        }
    }

    /// `text` styled as errors.
    pub fn style_error(&self, text: String) -> (r: String)
        ensures
            r@ == error_prefix(*self) + text@ + error_suffix(*self),
    {
        match self {
            Theme::Default => cat3("\x1b[31m", text.as_str(), "\x1b[0m"),
            Theme::Fsociety => cat3("\x1b[1;31m[!]\x1b[0m \x1b[31m", text.as_str(), "\x1b[0m"),
            Theme::Allsafe => cat3("\x1b[31mError: ", text.as_str(), "\x1b[0m"),
            Theme::DarkArmy => cat3("\x1b[1;31m[ERR]\x1b[0m \x1b[31m", text.as_str(), "\x1b[0m"),
        }
    }

    /// `text` styled as section headings.
    pub fn style_section(&self, text: &str) -> (r: String)
        ensures
            r@ == section_prefix(*self) + text@ + section_suffix(*self),
    {
        match self {
            Theme::Default => cat3("\x1b[1m", text, "\x1b[0m"),
            Theme::Fsociety => cat3("\x1b[1;35m## ", text, "\x1b[0m"),
            Theme::Allsafe => cat3("\x1b[1;34m── ", text, " ──\x1b[0m"),
            Theme::DarkArmy => cat3("\x1b[1;33m[", text, "]\x1b[0m"),
        }
    }

    /// `text` styled as successes.
    pub fn style_success(&self, text: String) -> (r: String)
        ensures
            r@ == success_prefix(*self) + text@ + success_suffix(*self),
    {
        match self {
            Theme::Default => cat3("\x1b[32m", text.as_str(), "\x1b[0m"),
            Theme::Fsociety => cat3("\x1b[1;32m[+]\x1b[0m \x1b[32m", text.as_str(), "\x1b[0m"),
            Theme::Allsafe => cat3("\x1b[32m✓ ", text.as_str(), "\x1b[0m"),
            Theme::DarkArmy => cat3("\x1b[1;32m[OK]\x1b[0m \x1b[32m", text.as_str(), "\x1b[0m"),
        }
    }

    /// `text` styled as warnings.
    pub fn style_warning(&self, text: String) -> (r: String)
        ensures
            r@ == warning_prefix(*self) + text@ + warning_suffix(*self),
    {
        match self {
            Theme::Default => cat3("\x1b[33m", text.as_str(), "\x1b[0m"),
            Theme::Fsociety => cat3("\x1b[1;33m[!]\x1b[0m \x1b[33m", text.as_str(), "\x1b[0m"),
            Theme::Allsafe => cat3("\x1b[33m⚠ ", text.as_str(), "\x1b[0m"),
            Theme::DarkArmy => cat3("\x1b[1;33m[WARN]\x1b[0m \x1b[33m", text.as_str(), "\x1b[0m"),
        }
    }

    /// `text` styled as information.
    pub fn style_info(&self, text: String) -> (r: String)
        ensures
            r@ == info_prefix(*self) + text@ + info_suffix(*self),
    {
        match self {
            Theme::Default => cat3("\x1b[36m", text.as_str(), "\x1b[0m"),
            Theme::Fsociety => cat3("\x1b[36m[*]\x1b[0m \x1b[36m", text.as_str(), "\x1b[0m"),
            Theme::Allsafe => cat3("\x1b[34mℹ ", text.as_str(), "\x1b[0m"),
            Theme::DarkArmy => cat3("\x1b[1;34m[INFO]\x1b[0m \x1b[34m", text.as_str(), "\x1b[0m"),
        }
    }

    /// The theme named `name`, ignoring case; an unknown name is answered
    /// with the list of available themes.
    pub fn from_name(name: &str) -> (r: Result<Theme, String>)
        ensures
            match theme_named(lowercase(name@)) {
                Some(t) => r matches Ok(u) && u == t,
                None => r matches Err(m) && m@ == "Unknown theme: "@ + name@
                    + ". Available: default, fsociety, allsafe, darkarmy"@,
            },
    {
        let lower = to_lower(name);
        match Theme::parse(lower.as_str()) {
            Some(t) => Ok(t),
            None => Err(cat3("Unknown theme: ", name, ". Available: default, fsociety, allsafe, darkarmy")),
        }
    }

    /// The theme with the given lowercase name.
    pub fn parse(name: &str) -> (r: Option<Theme>)
        ensures
            r == theme_named(name@),
    {
        if str_eq(name, "default") {
            Some(Theme::Default)
        } else if str_eq(name, "fsociety") {
            Some(Theme::Fsociety)
        } else if str_eq(name, "allsafe") {
            Some(Theme::Allsafe)
        } else if str_eq(name, "darkarmy") {
            Some(Theme::DarkArmy)
        } else {
            None
        }
    }
}

impl std::str::FromStr for Theme {
    type Err = String;

    fn from_str(s: &str) -> (r: Result<Self, Self::Err>)
        ensures
            match theme_named(lowercase(s@)) {
                Some(t) => r matches Ok(u) && u == t,
                None => r matches Err(m) && m@ == "Unknown theme: "@ + s@
                    + ". Available: default, fsociety, allsafe, darkarmy"@,
            },
    {
        Theme::from_name(s)
    }
}

/// The theme a lowercase name stands for.
pub open spec fn theme_named(name: Seq<char>) -> Option<Theme> {
    if name == "default"@ {
        Some(Theme::Default)
    } else if name == "fsociety"@ {
        Some(Theme::Fsociety)
    } else if name == "allsafe"@ {
        Some(Theme::Allsafe)
    } else if name == "darkarmy"@ {
        Some(Theme::DarkArmy)
    } else {
        None
    }
}

} // verus!
