//! The options of the command line.

use super::names;
use crate::text::{chars_of, same_text, string_of, trim_white, trimmed_white};
use vstd::prelude::*;

verus! {

#[derive(Debug, Clone, Copy, PartialEq, Eq, Structural)]
pub enum CliOption {
    Help,
    Version,
}

/// The options of one call, in the order in which they were given.
#[derive(Debug)]
pub struct CliOptions(pub Vec<CliOption>);

impl Default for CliOptions {
    fn default() -> (options: Self)
        ensures
            options.0@ == Seq::<CliOption>::empty(),
    {
        CliOptions(Vec::new())
    }
}

impl CliOption {
    /// The letter of the option, as it is given behind one dash.
    pub open spec fn single(self) -> char {
        match self {
            CliOption::Help => names::OPT_SINGLE_HELP,
            CliOption::Version => names::OPT_SINGLE_VERSION,
        }
    }

    /// The name of the option, as it is given behind two dashes.
    pub open spec fn double(self) -> Seq<char> {
        match self {
            CliOption::Help => names::OPT_DOUBLE_HELP@,
            CliOption::Version => names::OPT_DOUBLE_VERSION@,
        }
    }

    /// The option that a letter stands for.
    pub open spec fn of_letter(c: char) -> Option<CliOption> {
        if c == names::OPT_SINGLE_HELP {
            Some(CliOption::Help)
        } else if c == names::OPT_SINGLE_VERSION {
            Some(CliOption::Version)
        } else {
            None
        }
    }

    /// The option that a name stands for.
    pub open spec fn named(name: Seq<char>) -> Option<CliOption> {
        if name == names::OPT_DOUBLE_HELP@ {
            Some(CliOption::Help)
        } else if name == names::OPT_DOUBLE_VERSION@ {
            Some(CliOption::Version)
        } else {
            None
        }
    }

    /// The letter of the option, as it is given behind one dash.
    pub fn name_single(&self) -> (c: char)
        ensures
            c == self.single(),
    {
        match self {
            CliOption::Help => names::OPT_SINGLE_HELP,
            CliOption::Version => names::OPT_SINGLE_VERSION,
        }
    }

    /// The name of the option, as it is given behind two dashes.
    pub fn name_double(&self) -> (name: &'static str)
        ensures
            name@ == self.double(),
    {
        match self {
            CliOption::Help => names::OPT_DOUBLE_HELP,
            CliOption::Version => names::OPT_DOUBLE_VERSION,
        }
    }
}

/// The options that letters stand for, from position `i` on, behind `so_far`;
/// `None` where a letter stands for none.
pub open spec fn of_letters(letters: Seq<char>, i: int, so_far: Seq<CliOption>) -> Option<
    Seq<CliOption>,
>
    decreases letters.len() - i,
{
    if i < 0 || i >= letters.len() {
        Some(so_far)
    } else {
        match CliOption::of_letter(letters[i]) {
            Some(option) => of_letters(letters, i + 1, so_far.push(option)),
            None => None,
        }
    }
}

/// The options that an argument stands for, white space around it apart:
/// behind two dashes the name of one option, behind one dash the letters of
/// one or more.
pub open spec fn of_argument(arg: Seq<char>) -> Option<Seq<CliOption>> {
    let t = trimmed_white(arg);
    if t.len() >= 3 && t[0] == '-' && t[1] == '-' {
        match CliOption::named(t.skip(2)) {
            Some(option) => Some(seq![option]),
            None => None,
        }
    } else if t.len() >= 2 && t[0] == '-' {
        of_letters(t, 1, Seq::empty())
    } else {
        None
    }
}

impl CliOptions {
    /// The options, in order.
    pub fn iter(&self) -> (it: std::slice::Iter<'_, CliOption>)
        ensures
            vstd::std_specs::slice::into_iter_elts(it) == self.0@,
            vstd::std_specs::iter::IteratorSpec::decrease(&it) is Some,
            vstd::std_specs::iter::IteratorSpec::initial_value_relation(&it, &it),
    {
        self.0.iter()
    }

    /// Whether `option` is among the options.
    pub fn has(&self, option: &CliOption) -> (b: bool)
        ensures
            b == self.0@.contains(*option),
    {
        let mut i: usize = 0;
        while i < self.0.len()
            invariant
                i <= self.0.len(),
                forall|k: int| 0 <= k < i ==> self.0@[k] != *option,
            decreases self.0.len() - i,
        {
            if self.0[i] == *option {
                return true;
            }
            i += 1;
        }
        false
    }

    pub fn is_empty(&self) -> (b: bool)
        ensures
            b == (self.0@.len() == 0),
    {
        self.0.is_empty()
    }

    /// The options as a plain list.
    pub fn into(self) -> (options: Vec<CliOption>)
        ensures
            options@ == self.0@,
    {
        self.0
    }

    /// The options of a plain list.
    pub fn from(opts: Vec<CliOption>) -> (options: Self)
        ensures
            options.0@ == opts@,
    {
        Self(opts)
    }

    /// Reads options from an argument of the command line.
    pub fn try_from(s: &str) -> (r: Result<Self, ()>)
        ensures
            match of_argument(s@) {
                Some(options) => r is Ok && r->Ok_0.0@ == options,
                None => r is Err,
            },
    {
        let t = trim_white(&chars_of(s));
        if t.len() >= 3 && t[0] == '-' && t[1] == '-' {
            let name = string_of(&t, 2, t.len());
            assert(name@ == t@.skip(2));
            let mut opts: Vec<CliOption> = Vec::new();
            if same_text(name.as_str(), names::OPT_DOUBLE_HELP) {
                opts.push(CliOption::Help);
                Ok(Self(opts))
            } else if same_text(name.as_str(), names::OPT_DOUBLE_VERSION) {
                opts.push(CliOption::Version);
                Ok(Self(opts))
            } else {
                Err(())
            }
        } else if t.len() >= 2 && t[0] == '-' {
            let mut opts: Vec<CliOption> = Vec::new();
            let mut i: usize = 1;
            while i < t.len()
                invariant
                    1 <= i <= t.len(),
                    t@ == trimmed_white(s@),
                    t@[0] == '-',
                    !(t@.len() >= 3 && t@[1] == '-'),
                    of_letters(t@, 1, Seq::empty()) == of_letters(t@, i as int, opts@),
                decreases t.len() - i,
            {
                let c = t[i];
                if c == names::OPT_SINGLE_HELP {
                    opts.push(CliOption::Help);
                } else if c == names::OPT_SINGLE_VERSION {
                    opts.push(CliOption::Version);
                } else {
                    return Err(());
                }
                i += 1;
            }
            Ok(Self(opts))
        } else {
            Err(())
        }
    }
}

} // verus!
