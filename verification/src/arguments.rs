//! The commands of the archive and how the command line chooses one.

use crate::ids::{text_option_view, texts_view};
use vstd::prelude::*;
use vstd::string::*;

verus! {

/// The value of the decimal digit `c`, if `c` is one.
pub open spec fn digit_value(c: char) -> Option<nat> {
    if '0' <= c && c <= '9' {
        Some((c as nat - '0' as nat) as nat)
    } else {
        None
    }
}

/// Whether every character of `text` is a decimal digit.
pub open spec fn all_digits(text: Seq<char>) -> bool {
    forall|i: int| 0 <= i < text.len() ==> digit_value(#[trigger] text[i]) is Some
}

/// The number that the decimal digits `digits` write.
pub open spec fn decimal_value(digits: Seq<char>) -> nat
    decreases digits.len(),
{
    if digits.len() == 0 {
        0
    } else {
        decimal_value(digits.drop_last()) * 10 + digit_value(digits.last()).unwrap()
    }
}

/// The number that `text` writes: decimal digits, at least one, after an
/// optional `+`, whose value fits 64 bits. Any other text writes no number.
pub open spec fn index_value(text: Seq<char>) -> Option<u64> {
    let digits = if text.len() > 0 && text[0] == '+' {
        text.skip(1)
    } else {
        text
    };
    if digits.len() > 0 && all_digits(digits) && decimal_value(digits) <= u64::MAX {
        Some(decimal_value(digits) as u64)
    } else {
        None
    }
}

/// A number does not get smaller when digits are written behind it.
pub proof fn lemma_decimal_value_grows(digits: Seq<char>, k: int)
    requires
        0 <= k <= digits.len(),
        all_digits(digits),
    ensures
        decimal_value(digits.take(k)) <= decimal_value(digits),
    decreases digits.len() - k,
{
    if k < digits.len() {
        lemma_decimal_value_grows(digits, k + 1);
        assert(digits.take(k + 1).drop_last() =~= digits.take(k));
    } else {
        assert(digits.take(k) =~= digits);
    }
}

/// The value of a decimal digit.
fn digit(c: char) -> (value: Option<u64>)
    ensures
        match value {
            Some(d) => digit_value(c) == Some(d as nat) && d <= 9,
            None => digit_value(c) is None,
        },
{
    match c {
        '0' => Some(0),
        '1' => Some(1),
        '2' => Some(2),
        '3' => Some(3),
        '4' => Some(4),
        '5' => Some(5),
        '6' => Some(6),
        '7' => Some(7),
        '8' => Some(8),
        '9' => Some(9),
        _ => None,
    }
}

/// Reads the position of a version as the command line gives it: a decimal
/// number that fits 64 bits, with an optional `+` before it.
pub fn parse_index(text: &str) -> (index: Option<u64>)
    ensures
        index == index_value(text@),
{
    let ghost all = text@;
    // What stands behind the sign, if there is one: the digits to read.
    let ghost rest = if all.len() > 0 && all[0] == '+' { all.skip(1) } else { all };
    let mut value: u64 = 0;
    let mut seen = false;
    let mut signed = false;
    for c in iter: text.chars()
        invariant
            iter.seq() == all,
            all == text@,
            rest == if all.len() > 0 && all[0] == '+' { all.skip(1) } else { all },
            signed == (all.len() > 0 && all[0] == '+' && iter.index() > 0),
            seen == (iter.index() > if signed { 1int } else { 0int }),
            all_digits(all.subrange(if signed { 1int } else { 0int }, iter.index() as int)),
            value == decimal_value(
                all.subrange(if signed { 1int } else { 0int }, iter.index() as int),
            ),
    {
        let ghost from = if signed { 1int } else { 0int };
        let ghost at = iter.index() as int;
        if c == '+' && !seen && !signed {
            signed = true;
        } else {
            let ghost read = all.subrange(from, at + 1);
            assert(read.drop_last() =~= all.subrange(from, at));
            match digit(c) {
                None => {
                    // The digits to read hold a character that is none.
                    assert(rest[at - from] == c);
                    return None;
                },
                Some(d) => {
                    assert(all_digits(read));
                    let grown = match value.checked_mul(10) {
                        Some(tens) => tens.checked_add(d),
                        None => None,
                    };
                    match grown {
                        Some(next) => {
                            value = next;
                            seen = true;
                        },
                        None => {
                            proof {
                                // What was read is too large already, and
                                // more digits make it no smaller.
                                if all_digits(rest) {
                                    assert(read =~= rest.take(at + 1 - from));
                                    lemma_decimal_value_grows(rest, at + 1 - from);
                                }
                            }
                            return None;
                        },
                    }
                },
            }
        }
    }
    assert(all.subrange(if signed { 1int } else { 0int }, all.len() as int) =~= rest);
    if !seen {
        None
    } else {
        Some(value)
    }
}

/// What the command line holds, option by option.
#[derive(Debug, PartialEq, Eq)]
pub struct Cli {
    /// Addresses of playlists to add to the archive.
    pub add_playlist: Option<Vec<String>>,
    /// Whether to update the stored playlists.
    pub update: bool,
    /// Whether to list the playlists of the archive.
    pub list: bool,
    /// The playlist whose versions to list.
    pub versions: Option<String>,
    /// The playlist to export and the position of the version to take.
    pub export: Option<Vec<String>>,
    /// Addresses of playlists to delete.
    pub delete_playlist: Option<Vec<String>>,
}

/// Which version of which playlist to export.
#[derive(Debug, PartialEq, Eq)]
pub struct ExportArgs {
    /// The playlist, by identifier or by address.
    pub playlist_id: String,
    /// The position of the version in the history of the playlist.
    pub index: u64,
}

/// A command of the archive.
#[derive(Debug, PartialEq, Eq)]
pub enum Args {
    /// Register the playlists at these addresses.
    NewPlaylist(Vec<String>),
    /// Delete the playlists at these addresses.
    DeletePlaylist(Vec<String>),
    /// Refresh every playlist of the archive.
    Update,
    /// List the playlists of the archive.
    List,
    /// List the versions of this playlist.
    Versions(String),
    /// Export a version of a playlist.
    Export(ExportArgs),
}

/// Why the command line gives no command.
#[derive(Debug, Clone, Copy, PartialEq, Eq)]
pub enum UsageError {
    /// No option that stands for a command was given.
    NoCommand,
    /// An export was asked for without both a playlist and a position, or
    /// with a position that is not a number.
    InvalidExport,
}

/// Mathematical model of a [`Cli`].
pub struct CliView {
    pub add_playlist: Option<Seq<Seq<char>>>,
    pub update: bool,
    pub list: bool,
    pub versions: Option<Seq<char>>,
    pub export: Option<Seq<Seq<char>>>,
    pub delete_playlist: Option<Seq<Seq<char>>>,
}

/// Mathematical model of a command.
pub enum ArgsView {
    NewPlaylist(Seq<Seq<char>>),
    DeletePlaylist(Seq<Seq<char>>),
    Update,
    List,
    Versions(Seq<char>),
    Export { playlist_id: Seq<char>, index: u64 },
}

/// The model of an optional list of strings.
pub open spec fn texts_option_view(texts: Option<Vec<String>>) -> Option<Seq<Seq<char>>> {
    match texts {
        Some(texts) => Some(texts_view(texts@)),
        None => None,
    }
}

impl View for Cli {
    type V = CliView;

    open spec fn view(&self) -> CliView {
        CliView {
            add_playlist: texts_option_view(self.add_playlist),
            update: self.update,
            list: self.list,
            versions: text_option_view(self.versions),
            export: texts_option_view(self.export),
            delete_playlist: texts_option_view(self.delete_playlist),
        }
    }
}

impl View for Args {
    type V = ArgsView;

    open spec fn view(&self) -> ArgsView {
        match *self {
            Args::NewPlaylist(urls) => ArgsView::NewPlaylist(texts_view(urls@)),
            Args::DeletePlaylist(urls) => ArgsView::DeletePlaylist(texts_view(urls@)),
            Args::Update => ArgsView::Update,
            Args::List => ArgsView::List,
            Args::Versions(id) => ArgsView::Versions(id@),
            Args::Export(export) => ArgsView::Export {
                playlist_id: export.playlist_id@,
                index: export.index,
            },
        }
    }
}

/// The model of the outcome of choosing a command.
pub open spec fn command_view(command: Result<Args, UsageError>) -> Result<ArgsView, UsageError> {
    match command {
        Ok(args) => Ok(args@),
        Err(error) => Err(error),
    }
}

/// The export that the values of the export option ask for: the first value
/// names the playlist and the second writes the position. Further values are
/// not looked at.
pub open spec fn export_command(values: Seq<Seq<char>>) -> Result<ArgsView, UsageError> {
    if values.len() >= 2 && index_value(values[1]) is Some {
        Ok(ArgsView::Export { playlist_id: values[0], index: index_value(values[1]).unwrap() })
    } else {
        Err(UsageError::InvalidExport)
    }
}

/// The command that a command line gives. Where it holds several options
/// that stand for a command, the first of these wins: update, add, delete,
/// list, versions of a playlist, export.
pub open spec fn command(cli: CliView) -> Result<ArgsView, UsageError> {
    if cli.update {
        Ok(ArgsView::Update)
    } else if cli.add_playlist is Some {
        Ok(ArgsView::NewPlaylist(cli.add_playlist.unwrap()))
    } else if cli.delete_playlist is Some {
        Ok(ArgsView::DeletePlaylist(cli.delete_playlist.unwrap()))
    } else if cli.list {
        Ok(ArgsView::List)
    } else if cli.versions is Some {
        Ok(ArgsView::Versions(cli.versions.unwrap()))
    } else if cli.export is Some {
        export_command(cli.export.unwrap())
    } else {
        Err(UsageError::NoCommand)
    }
}

/// Chooses the command that the command line gives, or says why it gives none.
pub fn parse_args(cli: Cli) -> (command: Result<Args, UsageError>)
    ensures
        command_view(command) == self::command(cli@),
{
    if cli.update {
        return Ok(Args::Update);
    }
    if let Some(urls) = cli.add_playlist {
        return Ok(Args::NewPlaylist(urls));
    }
    if let Some(urls) = cli.delete_playlist {
        return Ok(Args::DeletePlaylist(urls));
    }
    if cli.list {
        return Ok(Args::List);
    }
    if let Some(id) = cli.versions {
        return Ok(Args::Versions(id));
    }
    if let Some(values) = cli.export {
        if values.len() < 2 {
            return Err(UsageError::InvalidExport);
        }
        return match parse_index(values[1].as_str()) {
            Some(index) => Ok(
                Args::Export(ExportArgs { playlist_id: values[0].clone(), index }),
            ),
            None => Err(UsageError::InvalidExport),
        };
    }
    Err(UsageError::NoCommand)
}

} // verus!
