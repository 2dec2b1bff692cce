//! The export screen: choosing a format and a destination path.
use vstd::prelude::*;

use crate::crypto::secure_string::{string_pop, string_push};

verus! {

/// Formats a vault can be exported in.
#[derive(Debug, Clone, Copy, PartialEq, Eq, Structural)]
pub enum ExportFormat {
    Json,
    EncryptedJson,
    Csv,
}

/// Every format, in menu order.
pub open spec fn all_formats() -> Seq<ExportFormat> {
    seq![ExportFormat::Json, ExportFormat::EncryptedJson, ExportFormat::Csv]
}

/// Label of a format.
pub open spec fn format_label(f: ExportFormat) -> Seq<char> {
    match f {
        ExportFormat::Json => "JSON (Plaintext)"@,
        ExportFormat::EncryptedJson => "JSON (Encrypted)"@,
        ExportFormat::Csv => "CSV (Plaintext)"@,
    }
}

/// Description of a format.
pub open spec fn format_description(f: ExportFormat) -> Seq<char> {
    match f {
        ExportFormat::Json => "Export all data as readable JSON. WARNING: Not encrypted!"@,
        ExportFormat::EncryptedJson => "Export data as encrypted JSON. Requires password to import."@,
        ExportFormat::Csv => "Export as CSV for spreadsheet import. WARNING: Not encrypted!"@,
    }
}

/// File extension of a format.
pub open spec fn format_extension(f: ExportFormat) -> Seq<char> {
    match f {
        ExportFormat::Json => "json"@,
        ExportFormat::EncryptedJson => "vault.json"@,
        ExportFormat::Csv => "csv"@,
    }
}

/// Nerd Font icon of a format.
pub open spec fn format_icon(f: ExportFormat) -> Seq<char> {
    match f {
        ExportFormat::Json => "\u{f0626}"@,
        ExportFormat::EncryptedJson => "\u{f023}"@,
        ExportFormat::Csv => "\u{f138f}"@,
    }
}

impl ExportFormat {
    /// Every format, in menu order.
    pub fn all() -> (r: &'static [ExportFormat])
        ensures
            r@ == all_formats(),
    {
        let r: &'static [ExportFormat] = &[ExportFormat::Json, ExportFormat::EncryptedJson, ExportFormat::Csv];
        assert(r@ =~= all_formats());
        r
    }

    /// Label.
    pub fn label(&self) -> (r: &'static str)
        ensures
            r@ == format_label(*self),
    {
        match self {
            ExportFormat::Json => "JSON (Plaintext)",
            ExportFormat::EncryptedJson => "JSON (Encrypted)",
            ExportFormat::Csv => "CSV (Plaintext)",
        }
    }

    /// Description.
    pub fn description(&self) -> (r: &'static str)
        ensures
            r@ == format_description(*self),
    {
        match self {
            ExportFormat::Json => "Export all data as readable JSON. WARNING: Not encrypted!",
            ExportFormat::EncryptedJson => "Export data as encrypted JSON. Requires password to import.",
            ExportFormat::Csv => "Export as CSV for spreadsheet import. WARNING: Not encrypted!",
        }
    }

    /// File extension.
    pub fn extension(&self) -> (r: &'static str)
        ensures
            r@ == format_extension(*self),
    {
        match self {
            ExportFormat::Json => "json",
            ExportFormat::EncryptedJson => "vault.json",
            ExportFormat::Csv => "csv",
        }
    }

    /// Nerd Font icon.
    pub fn icon(&self) -> (r: &'static str)
        ensures
            r@ == format_icon(*self),
    {
        match self {
            ExportFormat::Json => "\u{f0626}",
            ExportFormat::EncryptedJson => "\u{f023}",
            ExportFormat::Csv => "\u{f138f}",
        }
    }

    /// Whether the export is encrypted.
    pub fn is_encrypted(&self) -> (r: bool)
        ensures
            r == (*self == ExportFormat::EncryptedJson),
    {
        match self {
            ExportFormat::EncryptedJson => true,
            _ => false,
        }
    }
}

/// Outcome of an export.
#[derive(Debug, Clone)]
pub enum ExportStatus {
    Success(String),
    Error(String),
    InProgress,
}

/// State of the export screen.
#[derive(Debug)]
pub struct ExportScreen {
    /// Index of the selected format.
    pub selected: usize,
    /// The destination path typed so far.
    pub path_input: String,
    /// Whether the path input has the focus.
    pub path_focused: bool,
    /// Outcome of the last export.
    pub status: Option<ExportStatus>,
}

/// `s` with each space replaced by an underscore.
pub open spec fn underscored(s: Seq<char>) -> Seq<char> {
    s.map_values(|c: char| if c == ' ' { '_' } else { c })
}

impl Default for ExportScreen {
    fn default() -> (r: ExportScreen)
        ensures
            r.selected == 0,
            r.path_input@ == Seq::<char>::empty(),
            !r.path_focused,
            r.status is None,
    {
        ExportScreen { selected: 0, path_input: String::new(), path_focused: false, status: None }
    }
}

impl ExportScreen {
    /// The first format selected, an empty path, nothing exported.
    pub fn new() -> (r: ExportScreen)
        ensures
            r.selected == 0,
            r.path_input@ == Seq::<char>::empty(),
            !r.path_focused,
            r.status is None,
    {
        ExportScreen::default()
    }

    /// The selected format; JSON when the index is out of range.
    pub fn selected_format(&self) -> (r: ExportFormat)
        ensures
            r == (if self.selected < all_formats().len() { all_formats()[self.selected as int] } else {
                ExportFormat::Json
            }),
    {
        let all = ExportFormat::all();
        if self.selected < all.len() {
            all[self.selected]
        } else {
            ExportFormat::Json
        }
    }

    /// Moves the selection up, unless the path has the focus.
    pub fn move_up(&mut self)
        ensures
            final(self).selected == (if !old(self).path_focused && old(self).selected > 0 {
                old(self).selected - 1
            } else {
                old(self).selected as int
            }),
            final(self).path_focused == old(self).path_focused,
            final(self).path_input == old(self).path_input,
    {
        if !self.path_focused && self.selected > 0 {
            self.selected = self.selected - 1;
        }
    }

    /// Moves the selection down to at most the last format, unless the path
    /// has the focus.
    pub fn move_down(&mut self)
        ensures
            final(self).selected == (if !old(self).path_focused && old(self).selected + 1 < all_formats().len() {
                old(self).selected + 1
            } else {
                old(self).selected as int
            }),
            final(self).path_focused == old(self).path_focused,
            final(self).path_input == old(self).path_input,
    {
        if !self.path_focused && self.selected < ExportFormat::all().len() - 1 {
            self.selected = self.selected + 1;
        }
    }

    /// Moves the focus between the format list and the path.
    pub fn toggle_focus(&mut self)
        ensures
            final(self).path_focused == !old(self).path_focused,
            final(self).selected == old(self).selected,
            final(self).path_input == old(self).path_input,
    {
        self.path_focused = !self.path_focused;
    }

    /// Types `c` at the end of the path, when it has the focus.
    pub fn input_char(&mut self, c: char)
        ensures
            final(self).path_input@ == (if old(self).path_focused { old(self).path_input@.push(c) } else {
                old(self).path_input@
            }),
            final(self).path_focused == old(self).path_focused,
            final(self).selected == old(self).selected,
    {
        if self.path_focused {
            string_push(&mut self.path_input, c);
        }
    }

    /// Deletes the last char of the path, when it has the focus.
    pub fn delete_char(&mut self)
        ensures
            final(self).path_input@ == (if old(self).path_focused && old(self).path_input@.len() > 0 {
                old(self).path_input@.drop_last()
            } else {
                old(self).path_input@
            }),
            final(self).path_focused == old(self).path_focused,
            final(self).selected == old(self).selected,
    {
        if self.path_focused {
            let _ = string_pop(&mut self.path_input);
        }
    }

    /// The default destination: the vault name with spaces turned into
    /// underscores, a dot and the format's extension.
    pub fn default_path(&self, vault_name: &str) -> (r: String)
        ensures
            r@ == underscored(vault_name@) + "."@ + format_extension(
                if self.selected < all_formats().len() { all_formats()[self.selected as int] } else { ExportFormat::Json },
            ),
    {
        let format = self.selected_format();
        let n = vault_name.unicode_len();
        let mut r = String::new();
        let mut i: usize = 0;
        while i < n
            invariant
                n == vault_name@.len(),
                i <= n,
                r@ =~= underscored(vault_name@.take(i as int)),
            decreases n - i,
        {
            let c = vault_name.get_char(i);
            string_push(&mut r, if c == ' ' { '_' } else { c });
            i = i + 1;
        }
        assert(vault_name@.take(n as int) =~= vault_name@);
        r.append(".");
        r.append(format.extension());
        proof {
            reveal_strlit(".");
        }
        r
    }
}

} // verus!
