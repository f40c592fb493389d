//! Launch options of the Chromium process and the command line built from them.

use vstd::prelude::*;

use std::path::PathBuf;

use crate::bridge::client::texts_view;
use crate::chromium_backend::ChromiumBackendOptions;

verus! {

/// Options for launching the Chromium process.
#[derive(Debug, Clone)]
pub struct ChromiumProcessOptions {
    /// Path to the browser executable.
    pub executable_path: PathBuf,
    /// The user data directory, passed as `--user-data-dir=<path>`.
    pub user_data_dir: Option<String>,
    /// The logging stream, passed as `--enable-logging=<stream>`.
    pub enable_logging: Option<String>,
    /// The log file, passed as `--log-file=<path>`.
    pub log_file: Option<String>,
    /// Verbosity, passed as `--v=<level>`.
    pub v: Option<i32>,
    /// Per-module verbosity, passed as `--vmodule=<pattern1=N,...>`.
    pub vmodule: Option<String>,
    /// The name of the channel, passed as `--cbf-ipc-channel=<name>`.
    pub channel_name: String,
    /// Further arguments, passed last and unchanged.
    pub extra_args: Vec<String>,
}

/// Combined options for launching Chromium and connecting the backend.
#[derive(Debug, Clone)]
pub struct StartChromiumOptions {
    pub process: ChromiumProcessOptions,
    pub backend: ChromiumBackendOptions,
}

/// The character of a decimal digit.
pub open spec fn digit_char(d: nat) -> char {
    (48 + d) as char
}

/// The decimal digits of a natural number, most significant first.
pub open spec fn decimal_digits(n: nat) -> Seq<char>
    decreases n,
{
    if n < 10 {
        seq![digit_char(n)]
    } else {
        decimal_digits(n / 10).push(digit_char(n % 10))
    }
}

/// The decimal text of an integer, with a leading `-` when it is negative.
pub open spec fn decimal_text(v: int) -> Seq<char> {
    if v < 0 {
        seq!['-'] + decimal_digits((-v) as nat)
    } else {
        decimal_digits(v as nat)
    }
}

/// The text of one decimal digit.
fn digit_str(d: u32) -> (s: &'static str)
    requires
        d < 10,
    ensures
        s@ == seq![digit_char(d as nat)],
{
    match d {
        0 => {
            proof {
                reveal_strlit("0");
            }
            "0"
        },
        1 => {
            proof {
                reveal_strlit("1");
            }
            "1"
        },
        2 => {
            proof {
                reveal_strlit("2");
            }
            "2"
        },
        3 => {
            proof {
                reveal_strlit("3");
            }
            "3"
        },
        4 => {
            proof {
                reveal_strlit("4");
            }
            "4"
        },
        5 => {
            proof {
                reveal_strlit("5");
            }
            "5"
        },
        6 => {
            proof {
                reveal_strlit("6");
            }
            "6"
        },
        7 => {
            proof {
                reveal_strlit("7");
            }
            "7"
        },
        8 => {
            proof {
                reveal_strlit("8");
            }
            "8"
        },
        _ => {
            proof {
                reveal_strlit("9");
            }
            "9"
        },
    }
}

/// The decimal digits of `n`, most significant first.
fn decimal_string(n: u32) -> (s: String)
    ensures
        s@ == decimal_digits(n as nat),
    decreases n,
{
    if n < 10 {
        String::from_str(digit_str(n))
    } else {
        let head = decimal_string(n / 10);
        let last = digit_str(n % 10);
        let s = head.concat(last);
        assert(s@ =~= decimal_digits((n / 10) as nat).push(digit_char((n % 10) as nat)));
        s
    }
}

/// The decimal text of a value, with a leading `-` when it is negative.
fn i32_to_string(value: i32) -> (s: String)
    ensures
        s@ == decimal_text(value as int),
{
    if value < 0 {
        let magnitude: u32 = (-(value as i64)) as u32;
        let digits = decimal_string(magnitude);
        proof {
            reveal_strlit("-");
        }
        let s = String::from_str("-").concat(digits.as_str());
        assert(s@ =~= seq!['-'] + decimal_digits((-(value as int)) as nat));
        s
    } else {
        decimal_string(value as u32)
    }
}

/// The argument for an optional switch: none when the value is absent.
pub open spec fn optional_switch(name: Seq<char>, value: Option<String>) -> Seq<Seq<char>> {
    match value {
        Some(v) => seq![name + v@],
        None => Seq::empty(),
    }
}

/// The command line arguments of the Chromium process: the feature switch,
/// the channel, each option given, then the extra arguments.
pub open spec fn spec_chromium_args(p: ChromiumProcessOptions) -> Seq<Seq<char>> {
    seq!["--enable-features=Cbf"@, "--cbf-ipc-channel="@ + p.channel_name@]
        + optional_switch("--user-data-dir="@, p.user_data_dir)
        + optional_switch("--enable-logging="@, p.enable_logging)
        + optional_switch("--log-file="@, p.log_file)
        + match p.v {
            Some(v) => seq!["--v="@ + decimal_text(v as int)],
            None => Seq::empty(),
        }
        + optional_switch("--vmodule="@, p.vmodule)
        + texts_view(p.extra_args@)
}

/// The Chromium command line starts with the feature switch and the channel
/// switch naming the options' channel; each given option follows as its own
/// switch with its value (the user data directory first when given); and it
/// ends with the extra arguments, all of them, in order.
pub proof fn lemma_command_line_layout(p: ChromiumProcessOptions)
    ensures
        spec_chromium_args(p)[0] == "--enable-features=Cbf"@,
        spec_chromium_args(p)[1] == "--cbf-ipc-channel="@ + p.channel_name@,
        p.user_data_dir matches Some(dir) ==> spec_chromium_args(p)[2] == "--user-data-dir="@ + dir@,
        p.user_data_dir is None && p.enable_logging is None && p.log_file is None ==> (p.v matches Some(level)
            ==> spec_chromium_args(p)[2] == "--v="@ + decimal_text(level as int)),
        spec_chromium_args(p).len() >= 2 + p.extra_args.len(),
        forall|i: int|
            0 <= i < p.extra_args.len() ==> spec_chromium_args(p)[spec_chromium_args(p).len()
                - p.extra_args.len() + i] == (#[trigger] p.extra_args@[i])@,
{
    let extra = texts_view(p.extra_args@);
    assert(extra.len() == p.extra_args@.len());
    assert forall|i: int| 0 <= i < p.extra_args.len() implies spec_chromium_args(p)[spec_chromium_args(p).len()
        - p.extra_args.len() + i] == (#[trigger] p.extra_args@[i])@ by {
        assert(extra[i] == p.extra_args@[i]@);
    }
}

/// Append `name` followed by the value, when there is one.
fn push_optional_switch(args: &mut Vec<String>, name: &str, value: &Option<String>)
    ensures
        texts_view(final(args)@) == texts_view(old(args)@) + optional_switch(name@, *value),
{
    match value {
        Some(v) => {
            let arg = String::from_str(name).concat(v.as_str());
            args.push(arg);
            proof {
                assert(texts_view(args@) =~= texts_view(old(args)@) + optional_switch(name@, *value));
            }
        },
        None => {
            proof {
                assert(texts_view(args@) =~= texts_view(old(args)@) + optional_switch(name@, *value));
            }
        },
    }
}

/// The command line arguments that launch Chromium with these options.
pub fn chromium_command_args(process: &ChromiumProcessOptions) -> (args: Vec<String>)
    ensures
        texts_view(args@) == spec_chromium_args(*process),
{
    let mut args: Vec<String> = Vec::new();
    args.push(String::from_str("--enable-features=Cbf"));
    args.push(String::from_str("--cbf-ipc-channel=").concat(process.channel_name.as_str()));
    proof {
        assert(texts_view(args@) =~= seq![
            "--enable-features=Cbf"@,
            "--cbf-ipc-channel="@ + process.channel_name@,
        ]);
    }
    push_optional_switch(&mut args, "--user-data-dir=", &process.user_data_dir);
    push_optional_switch(&mut args, "--enable-logging=", &process.enable_logging);
    push_optional_switch(&mut args, "--log-file=", &process.log_file);
    let ghost before_v = texts_view(args@);
    match process.v {
        Some(v) => {
            let level = i32_to_string(v);
            args.push(String::from_str("--v=").concat(level.as_str()));
        },
        None => {},
    }
    proof {
        assert(texts_view(args@) =~= before_v + match process.v {
            Some(v) => seq!["--v="@ + decimal_text(v as int)],
            None => Seq::<Seq<char>>::empty(),
        });
    }
    push_optional_switch(&mut args, "--vmodule=", &process.vmodule);
    let ghost before_extra = texts_view(args@);
    let mut i: usize = 0;
    while i < process.extra_args.len()
        invariant
            0 <= i <= process.extra_args@.len(),
            texts_view(args@) == before_extra + texts_view(process.extra_args@.subrange(0, i as int)),
        decreases process.extra_args@.len() - i,
    {
        let arg = process.extra_args[i].clone();
        let ghost prev = args@;
        args.push(arg);
        proof {
            assert(arg@ == process.extra_args@[i as int]@);
            assert(texts_view(args@) =~= texts_view(prev).push(arg@));
            assert(texts_view(process.extra_args@.subrange(0, i + 1)) =~= texts_view(
                process.extra_args@.subrange(0, i as int),
            ).push(process.extra_args@[i as int]@));
            assert(process.extra_args@.subrange(0, i + 1) =~= process.extra_args@.subrange(0, i as int).push(process.extra_args@[i as int]));
            assert(texts_view(args@) =~= before_extra + texts_view(process.extra_args@.subrange(0, i + 1)));
        }
        i = i + 1;
    }
    proof {
        assert(process.extra_args@.subrange(0, process.extra_args@.len() as int) =~= process.extra_args@);
        assert(texts_view(args@) =~= spec_chromium_args(*process));
    }
    args
}

} // verus!
