//! The command line of the tool that exports compiled oracle text to CSV.

use vstd::prelude::*;
use crate::text::{push_str, same_text, string_of};

verus! {

/// Where the export reads its cards and writes its tables, and how it
/// compares texts.
#[derive(Debug, Clone)]
pub struct ExportArgs {
    /// The JSON file of cards.
    pub cards_path: String,
    /// The CSV file of every card.
    pub all_out: String,
    /// The CSV file of the cards whose compiled text does not read back the same.
    pub mismatch_out: String,
    /// Whether reminder text is left out of comparisons.
    pub strip_reminder_for_comparison: bool,
}

/// The settings as plain values: cards path, all-cards output, mismatch
/// output, and whether reminder text is stripped for comparison.
pub type ArgsModel = (Seq<char>, Seq<char>, Seq<char>, bool);

/// The settings when no argument is given.
pub open spec fn default_args() -> ArgsModel {
    ("cards.json"@, "cards_compiled_oracle_text.csv"@, "cards_compiled_oracle_text_semantic_mismatch.csv"@, true)
}

/// The text given for `-h` or `--help`.
pub open spec fn usage_text() -> Seq<char> {
    "usage: cargo run --bin export_compiled_oracle_csv -- [--cards <path>] [--all-out <path>] [--mismatch-out <path>] [--comparison-mode <strip-reminder|full>]"@
}

/// What the arguments `args`, read from position `i` on with the settings
/// `st` so far, come to: the final settings, or the error message of the
/// first argument that is wrong.
pub open spec fn parsed_from(args: Seq<Seq<char>>, i: int, st: ArgsModel) -> Result<ArgsModel, Seq<char>>
    decreases args.len() - i,
{
    if i < 0 || i >= args.len() {
        Ok(st)
    } else {
        let a = args[i];
        let has_value = i + 1 < args.len();
        if a == "--cards"@ {
            if has_value {
                parsed_from(args, i + 2, (args[i + 1], st.1, st.2, st.3))
            } else {
                Err("--cards requires a path"@)
            }
        } else if a == "--all-out"@ {
            if has_value {
                parsed_from(args, i + 2, (st.0, args[i + 1], st.2, st.3))
            } else {
                Err("--all-out requires a path"@)
            }
        } else if a == "--mismatch-out"@ {
            if has_value {
                parsed_from(args, i + 2, (st.0, st.1, args[i + 1], st.3))
            } else {
                Err("--mismatch-out requires a path"@)
            }
        } else if a == "--comparison-mode"@ {
            if !has_value {
                Err("--comparison-mode requires a value"@)
            } else if args[i + 1] == "strip-reminder"@ {
                parsed_from(args, i + 2, (st.0, st.1, st.2, true))
            } else if args[i + 1] == "full"@ {
                parsed_from(args, i + 2, (st.0, st.1, st.2, false))
            } else {
                Err("invalid --comparison-mode '"@ + args[i + 1] + "'. expected 'strip-reminder' or 'full'"@)
            }
        } else if a == "-h"@ || a == "--help"@ {
            Err(usage_text())
        } else {
            Err("unknown argument '"@ + a + "'. expected --cards/--all-out/--mismatch-out/--comparison-mode"@)
        }
    }
}

/// The settings of the export given its arguments (the program name left out).
pub open spec fn parsed_args(args: Seq<Seq<char>>) -> Result<ArgsModel, Seq<char>> {
    parsed_from(args, 0, default_args())
}

/// The views of the strings of `v`.
pub open spec fn views(v: Seq<String>) -> Seq<Seq<char>> {
    v.map_values(|s: String| s@)
}

/// The model of `a`.
pub open spec fn args_model(a: ExportArgs) -> ArgsModel {
    (a.cards_path@, a.all_out@, a.mismatch_out@, a.strip_reminder_for_comparison)
}

/// `prefix`, then `middle`, then `suffix`.
fn framed(prefix: &str, middle: &String, suffix: &str) -> (s: String)
    ensures
        s@ == prefix@ + middle@ + suffix@,
{
    let mut s = string_of(prefix);
    push_str(&mut s, middle.as_str());
    push_str(&mut s, suffix);
    s
}

/// Reads the export's arguments (the program name left out): `--cards`,
/// `--all-out` and `--mismatch-out` each take a path, `--comparison-mode`
/// takes `strip-reminder` or `full`; a later setting overrides an earlier
/// one. Fails with a message on a missing or invalid value, on `-h` or
/// `--help` (the usage text), and on any other argument.
pub fn parse_args(args: &Vec<String>) -> (r: Result<ExportArgs, String>)
    ensures
        match r {
            Ok(a) => parsed_args(views(args@)) == Ok::<ArgsModel, Seq<char>>(args_model(a)),
            Err(e) => parsed_args(views(args@)) == Err::<ArgsModel, Seq<char>>(e@),
        },
{
    let ghost vs = views(args@);
    let mut cards_path = string_of("cards.json");
    let mut all_out = string_of("cards_compiled_oracle_text.csv");
    let mut mismatch_out = string_of("cards_compiled_oracle_text_semantic_mismatch.csv");
    let mut strip_reminder_for_comparison = true;
    let mut i: usize = 0;
    while i < args.len()
        invariant
            vs == views(args@),
            vs.len() == args@.len(),
            i <= args@.len(),
            parsed_args(vs) == parsed_from(
                vs,
                i as int,
                (cards_path@, all_out@, mismatch_out@, strip_reminder_for_comparison),
            ),
        decreases args.len() - i,
    {
        let arg = &args[i];
        assert(vs[i as int] == arg@);
        let has_value = i + 1 < args.len();
        if has_value {
            assert(vs[i + 1] == args@[i + 1]@);
        }
        if same_text(arg, "--cards") {
            if !has_value {
                return Err(string_of("--cards requires a path"));
            }
            cards_path = string_of(args[i + 1].as_str());
            i = i + 2;
        } else if same_text(arg, "--all-out") {
            if !has_value {
                return Err(string_of("--all-out requires a path"));
            }
            all_out = string_of(args[i + 1].as_str());
            i = i + 2;
        } else if same_text(arg, "--mismatch-out") {
            if !has_value {
                return Err(string_of("--mismatch-out requires a path"));
            }
            mismatch_out = string_of(args[i + 1].as_str());
            i = i + 2;
        } else if same_text(arg, "--comparison-mode") {
            if !has_value {
                return Err(string_of("--comparison-mode requires a value"));
            }
            let value = &args[i + 1];
            if same_text(value, "strip-reminder") {
                strip_reminder_for_comparison = true;
            } else if same_text(value, "full") {
                strip_reminder_for_comparison = false;
            } else {
                return Err(framed("invalid --comparison-mode '", value, "'. expected 'strip-reminder' or 'full'"));
            }
            i = i + 2;
        } else if same_text(arg, "-h") || same_text(arg, "--help") {
            return Err(
                string_of(
                    "usage: cargo run --bin export_compiled_oracle_csv -- [--cards <path>] [--all-out <path>] [--mismatch-out <path>] [--comparison-mode <strip-reminder|full>]",
                ),
            );
        } else {
            return Err(
                framed("unknown argument '", arg, "'. expected --cards/--all-out/--mismatch-out/--comparison-mode"),
            );
        }
    }
    Ok(ExportArgs { cards_path, all_out, mismatch_out, strip_reminder_for_comparison })
}

} // verus!
