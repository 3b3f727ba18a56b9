//! What the impact module reads of the statusline context.

use vstd::prelude::*;

use crate::text;

verus! {

/// The workspace that the session was opened in.
pub struct Workspace {
    pub current_dir: Option<String>,
}

/// The session's edit volume. The amount spent is not part of it: no decision of
/// the core reads the amount itself.
pub struct Cost {
    pub total_lines_added: Option<i64>,
    pub total_lines_removed: Option<i64>,
}

/// The statusline context, as far as the impact module reads it.
pub struct Context {
    pub workspace: Option<Workspace>,
    pub cwd: Option<String>,
    pub session_id: Option<String>,
    pub transcript_path: Option<String>,
    pub cost: Option<Cost>,
}

/// A line count that may be missing or negative, as a number of lines.
pub open spec fn line_count(lines: Option<i64>) -> nat {
    match lines {
        Some(n) => if n > 0 {
            n as nat
        } else {
            0
        },
        None => 0,
    }
}

impl Context {
    /// The explicit workspace directory where there is one, else `cwd`.
    pub open spec fn directory(self) -> Option<Seq<char>> {
        match self.workspace {
            Some(w) => match w.current_dir {
                Some(dir) => Some(dir@),
                None => text::view_of(self.cwd),
            },
            None => text::view_of(self.cwd),
        }
    }

    /// The session's name: empty where it has none.
    pub open spec fn session(self) -> Seq<char> {
        match self.session_id {
            Some(id) => id@,
            None => seq![],
        }
    }

    /// The lines added and removed in this session.
    pub open spec fn code_lines(self) -> nat {
        match self.cost {
            Some(c) => line_count(c.total_lines_added) + line_count(c.total_lines_removed),
            None => 0,
        }
    }

    /// The working directory.
    pub fn working_dir(&self) -> (dir: Option<&String>)
        ensures
            dir is Some <==> self.directory() is Some,
            dir matches Some(d) ==> self.directory() == Some(d@),
    {
        match &self.workspace {
            Some(w) => match &w.current_dir {
                Some(dir) => Some(dir),
                None => self.cwd.as_ref(),
            },
            None => self.cwd.as_ref(),
        }
    }

    /// The session's name.
    pub fn session_name(&self) -> (name: String)
        ensures
            name@ == self.session(),
    {
        match &self.session_id {
            Some(id) => id.clone(),
            None => String::new(),
        }
    }

    /// The session's edit volume.
    pub fn edited_lines(&self) -> (lines: u64)
        ensures
            lines == self.code_lines(),
    {
        match &self.cost {
            Some(c) => at_least_zero(c.total_lines_added) + at_least_zero(c.total_lines_removed),
            None => 0,
        }
    }
}

fn at_least_zero(lines: Option<i64>) -> (n: u64)
    ensures
        n == line_count(lines),
        n <= i64::MAX,
{
    match lines {
        Some(n) => if n > 0 {
            n as u64
        } else {
            0
        },
        None => 0,
    }
}

} // verus!
