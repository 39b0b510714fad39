//! The command line of the tools: the arguments before they are parsed, and
//! the line that a tool ends on when it fails.

use vstd::prelude::*;
use vstd::string::*;

verus! {

/// Whether the argument looks like an option: it starts with `-`.
pub open spec fn is_option(arg: Seq<char>) -> bool {
    arg.len() > 0 && arg[0] == '-'
}

/// Whether the argument looks like a negative number: it starts with `-`
/// and a decimal digit.
pub open spec fn is_negative_number(arg: Seq<char>) -> bool {
    arg.len() > 1 && arg[0] == '-' && '0' <= arg[1] <= '9'
}

/// Whether the options end at the argument: it is no option, or it is a
/// negative number.
pub open spec fn ends_options(arg: Seq<char>) -> bool {
    !is_option(arg) || is_negative_number(arg)
}

/// The texts of a list of arguments.
pub open spec fn texts(args: Seq<String>) -> Seq<Seq<char>> {
    Seq::new(args.len(), |i: int| args[i]@)
}

/// The position of the first argument at which the options end; the number
/// of arguments where there is none.
pub open spec fn options_end(args: Seq<Seq<char>>) -> int
    decreases args.len(),
{
    if args.len() == 0 {
        0
    } else if ends_options(args[0]) {
        0
    } else {
        1 + options_end(args.drop_first())
    }
}

/// The arguments with `--` put in front of the argument at which the options
/// end, where that argument is a negative number; else the arguments as they
/// are.
pub open spec fn prefixed(args: Seq<Seq<char>>) -> Seq<Seq<char>> {
    let k = options_end(args);
    if k < args.len() && is_negative_number(args[k]) {
        args.insert(k, "--"@)
    } else {
        args
    }
}

/// The options end at `k` where every argument before `k` is an option and
/// no negative number, and the argument at `k`, if there is one, is not.
proof fn lemma_options_end(args: Seq<Seq<char>>, k: int)
    requires
        0 <= k <= args.len(),
        forall|j: int| 0 <= j < k ==> !ends_options(#[trigger] args[j]),
        k < args.len() ==> ends_options(args[k]),
    ensures
        options_end(args) == k,
    decreases args.len(),
{
    if args.len() > 0 && !ends_options(args[0]) {
        let rest = args.drop_first();
        assert forall|j: int| 0 <= j < k - 1 implies !ends_options(#[trigger] rest[j]) by {
            assert(rest[j] == args[j + 1]);
        }
        if k - 1 < rest.len() {
            assert(rest[k - 1] == args[k]);
        }
        lemma_options_end(rest, k - 1);
    }
}

/// Puts `--` in front of the first argument that looks like a negative
/// number, so that a parser of options takes it for a number. Only the
/// options in front count: the search ends at the first argument that is no
/// option.
pub fn prefix_number(args: &mut Vec<String>)
    ensures
        texts(final(args)@) == prefixed(texts(old(args)@)),
{
    let n = args.len();
    let mut i: usize = 0;
    while i < n
        invariant
            i <= n,
            n == args.len(),
            args@ == old(args)@,
            forall|j: int| 0 <= j < i ==> !ends_options(#[trigger] texts(args@)[j]),
        decreases n - i,
    {
        let arg = args[i].as_str();
        let len = arg.unicode_len();
        let opt = len > 0 && arg.get_char(0) == '-';
        let num = opt && len > 1 && '0' <= arg.get_char(1) && arg.get_char(1) <= '9';
        proof {
            assert(texts(args@)[i as int] == arg@);
            assert(opt == is_option(arg@));
            assert(num == is_negative_number(arg@));
        }
        if num {
            proof {
                lemma_options_end(texts(args@), i as int);
            }
            let ghost before = args@;
            let dashes = String::from_str("--");
            args.insert(i, dashes);
            proof {
                assert(texts(args@) =~= texts(before).insert(i as int, "--"@));
            }
            return ;
        }
        if !opt {
            proof {
                lemma_options_end(texts(args@), i as int);
            }
            return ;
        }
        i = i + 1;
    }
    proof {
        lemma_options_end(texts(args@), n as int);
    }
}

/// The name of the program and its arguments, made ready for a parser of
/// options: the name as it is, and the arguments as [`prefix_number`] leaves
/// them.
pub fn number_args(name: String, args: Vec<String>) -> (r: (String, Vec<String>))
    ensures
        r.0 == name,
        texts(r.1@) == prefixed(texts(args@)),
{
    let mut args = args;
    prefix_number(&mut args);
    (name, args)
}

/// How a tool ends when it has failed: the code that the process exits
/// with, and the line that it writes to the error stream before.
#[derive(Debug)]
pub struct Exit {
    pub code: i32,
    pub line: String,
}

/// The line that the program `name` writes when it fails with the message
/// `message`: the name, a colon and a space, and the message.
pub open spec fn error_line(name: Seq<char>, message: Seq<char>) -> Seq<char> {
    name + ": "@ + message
}

/// What becomes of the result `r` of the program `name`: its value where it
/// succeeded; where it failed, the code `code` to exit with and the line to
/// write.
pub fn handle_error<T>(name: &str, code: i32, r: Result<T, &str>) -> (h: Result<T, Exit>)
    ensures
        match r {
            Ok(t) => h == Ok::<T, Exit>(t),
            Err(message) => h matches Err(exit) && exit.code == code && exit.line@ == error_line(
                name@,
                message@,
            ),
        },
{
    match r {
        Ok(t) => Ok(t),
        Err(message) => {
            let mut line = String::from_str(name);
            line.append(": ");
            line.append(message);
            Err(Exit { code, line })
        },
    }
}

} // verus!
