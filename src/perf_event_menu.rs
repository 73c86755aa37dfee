//! The command help menu: its column titles and the line for one command.
use vstd::prelude::*;

verus! {

/// `s` followed by spaces up to `width` characters; unchanged when it is
/// already that long.
pub open spec fn padded(s: Seq<char>, width: nat) -> Seq<char> {
    s + Seq::new(if s.len() < width { (width - s.len()) as nat } else { 0 }, |i: int| ' ')
}

/// Left-aligns `s` in a field of `width` characters.
pub fn pad_right(s: &str, width: usize) -> (r: String)
    ensures
        r@ == padded(s@, width as nat),
{
    let mut out = String::from_str(s);
    let n = s.unicode_len();
    let mut k: usize = n;
    proof {
        reveal_strlit(" ");
    }
    assert(out@ =~= s@ + Seq::new(0, |i: int| ' '));
    while k < width
        invariant
            n == s@.len(),
            n <= k <= width || (k == n && n >= width),
            out@ == s@ + Seq::new((k - n) as nat, |i: int| ' '),
        decreases width - k,
    {
        proof {
            reveal_strlit(" ");
        }
        out.append(" ");
        k = k + 1;
        assert(out@ =~= s@ + Seq::new((k - n) as nat, |i: int| ' '));
    }
    out
}

/// The titles of the help menu's columns: command, short command, hot
/// key and arguments, each left-aligned in its own width, then the
/// description.
pub fn get_title() -> (r: Vec<String>)
    ensures
        r@.len() == 5,
        r@[0]@ == padded("Command"@, 18),
        r@[1]@ == padded("Short Cmd"@, 11),
        r@[2]@ == padded("Hot Key"@, 24),
        r@[3]@ == padded("Args"@, 10),
        r@[4]@ == "Description"@,
{
    vec![
        pad_right("Command", 18),
        pad_right("Short Cmd", 11),
        pad_right("Hot Key", 24),
        pad_right("Args", 10),
        String::from_str("Description"),
    ]
}

/// The commands of the dashboard that the help menu lists.
#[derive(Clone, Copy, Debug, PartialEq, Eq, Structural)]
pub enum Controllers {
    Help,
    CmdPalette,
    NextTab,
    PrevTab,
    Quit,
    Refresh,
    Pause,
    SortCol,
    Filter,
    JForward,
    JBackward,
}

/// The hint for the argument that `controller` takes: `-` for a command
/// without one.
pub open spec fn args_of(controller: Controllers) -> Seq<char> {
    match controller {
        Controllers::SortCol => "SortKey"@,
        Controllers::Filter => "Name"@,
        Controllers::JForward => "Time"@,
        Controllers::JBackward => "Time"@,
        _ => "-"@,
    }
}

/// The hint for the argument that `controller` takes.
pub fn get_args(controller: &Controllers) -> (r: &'static str)
    ensures
        r@ == args_of(*controller),
{
    match controller {
        Controllers::SortCol => "SortKey",
        Controllers::Filter => "Name",
        Controllers::JForward => "Time",
        Controllers::JBackward => "Time",
        _ => "-",
    }
}

/// One line of the command help menu. `event` is the text of the key
/// bound to the command.
pub struct ControllerHelper {
    pub event: String,
    pub description: String,
    pub cmd: String,
    pub cmd_short: String,
    pub args: String,
}

impl ControllerHelper {
    /// The short command, or `-` when the command has none.
    pub open spec fn short_or_dash(self) -> Seq<char> {
        if self.cmd_short@.len() == 0 {
            seq!['-']
        } else {
            self.cmd_short@
        }
    }

    /// The columns of the line, aligned as the menu's titles are.
    pub open spec fn spec_line(self) -> Seq<char> {
        padded(self.cmd@, 18) + seq![' '] + padded(self.short_or_dash(), 11) + seq![' ']
            + padded(self.event@, 24) + seq![' '] + padded(self.args@, 10) + seq![' ']
            + self.description@
    }

    /// The line shown for this command.
    pub fn to_line(&self) -> (r: String)
        ensures
            r@ == self.spec_line(),
    {
        proof {
            reveal_strlit(" ");
            reveal_strlit("-");
        }
        let mut line = pad_right(self.cmd.as_str(), 18);
        line.append(" ");
        let short = if self.cmd_short.unicode_len() == 0 {
            pad_right("-", 11)
        } else {
            pad_right(self.cmd_short.as_str(), 11)
        };
        line.append(short.as_str());
        line.append(" ");
        let event = pad_right(self.event.as_str(), 24);
        line.append(event.as_str());
        line.append(" ");
        let args = pad_right(self.args.as_str(), 10);
        line.append(args.as_str());
        line.append(" ");
        line.append(self.description.as_str());
        assert(line@ =~= self.spec_line());
        line
    }
}

} // verus!
