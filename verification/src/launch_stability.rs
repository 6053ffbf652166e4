//! Opt-in launch overrides for long-stream stability (profile switch or environment).
use vstd::prelude::*;

use crate::chrome_flags::BrowserChromeLaunchConfig;
use crate::text::{append_str, push_char, starts_with, starts_with_str, str_eq, to_owned_string, views};

verus! {

/// Reading of a boolean environment switch.
pub open spec fn truthy(raw: Option<Seq<char>>) -> Option<bool> {
    match raw {
        Some(s) => if s == "1"@ || s == "true"@ || s == "yes"@ || s == "on"@ {
            Some(true)
        } else if s == "0"@ || s == "false"@ || s == "no"@ || s == "off"@ {
            Some(false)
        } else {
            None
        },
        None => None,
    }
}

pub fn env_truthy(raw: Option<&str>) -> (r: Option<bool>)
    ensures
        r == truthy(
            match raw {
                Some(s) => Some(s@),
                None => None,
            },
        ),
{
    match raw {
        Some(s) => if str_eq(s, "1") || str_eq(s, "true") || str_eq(s, "yes") || str_eq(s, "on") {
            Some(true)
        } else if str_eq(s, "0") || str_eq(s, "false") || str_eq(s, "no") || str_eq(s, "off") {
            Some(false)
        } else {
            None
        },
        None => None,
    }
}

pub open spec fn has_flag(args: Seq<Seq<char>>, flag: Seq<char>) -> bool {
    exists|i: int| 0 <= i < args.len() && (args[i] == flag || starts_with(#[trigger] args[i], flag.push('=')))
}

pub open spec fn with_flag(args: Seq<Seq<char>>, flag: Seq<char>) -> Seq<Seq<char>> {
    if has_flag(args, flag) {
        args
    } else {
        args.push(flag)
    }
}

pub open spec fn without_exact(args: Seq<Seq<char>>, flag: Seq<char>) -> Seq<Seq<char>>
    decreases args.len(),
{
    if args.len() == 0 {
        Seq::empty()
    } else if args.last() == flag {
        without_exact(args.drop_last(), flag)
    } else {
        without_exact(args.drop_last(), flag).push(args.last())
    }
}

/// Appends `flag` unless some argument already is `flag` or `flag=...`.
pub fn ensure_flag(args: &mut Vec<String>, flag: &str)
    ensures
        views(final(args)@) == with_flag(views(old(args)@), flag@),
{
    let mut with_eq = to_owned_string(flag);
    push_char(&mut with_eq, '=');
    let mut i: usize = 0;
    while i < args.len()
        invariant
            i <= args.len(),
            with_eq@ == flag@.push('='),
            forall|m: int|
                0 <= m < i ==> !(views(args@)[m] == flag@ || starts_with(
                    #[trigger] views(args@)[m],
                    flag@.push('='),
                )),
        decreases args.len() - i,
    {
        assert(views(args@)[i as int] == args@[i as int]@);
        if str_eq(args[i].as_str(), flag) || starts_with_str(args[i].as_str(), with_eq.as_str()) {
            return;
        }
        i = i + 1;
    }
    let ghost before = views(args@);
    args.push(to_owned_string(flag));
    assert(views(args@) =~= before.push(flag@));
}

fn remove_exact(args: &mut Vec<String>, flag: &str)
    ensures
        views(final(args)@) == without_exact(views(old(args)@), flag@),
{
    let ghost a0 = views(args@);
    let mut out: Vec<String> = Vec::new();
    let mut i: usize = 0;
    while i < args.len()
        invariant
            i <= args.len(),
            a0 == views(args@),
            views(out@) == without_exact(a0.take(i as int), flag@),
        decreases args.len() - i,
    {
        assert(a0.take(i + 1).drop_last() =~= a0.take(i as int));
        assert(a0.take(i + 1).last() == args@[i as int]@);
        if !str_eq(args[i].as_str(), flag) {
            let ghost before = views(out@);
            out.push(args[i].clone());
            assert(views(out@) =~= before.push(args@[i as int]@));
        }
        i = i + 1;
    }
    assert(a0.take(args.len() as int) =~= a0);
    *args = out;
}

/// Extra arguments after the overrides.
pub open spec fn stable_extra_args(
    extra: Seq<Seq<char>>,
    stability: bool,
    env_disable_gpu: Option<bool>,
) -> Seq<Seq<char>> {
    let e1 = if stability {
        with_flag(extra, "--disable-gpu"@)
    } else {
        extra
    };
    match env_disable_gpu {
        Some(true) => with_flag(e1, "--disable-gpu"@),
        Some(false) => without_exact(e1, "--disable-gpu"@),
        None => e1,
    }
}

pub open spec fn stable_high_priority(
    current: bool,
    stability: bool,
    env_high_priority: Option<bool>,
) -> bool {
    match env_high_priority {
        Some(h) => h,
        None => if stability {
            false
        } else {
            current
        },
    }
}

/// Applies the stability profile and the environment switches (already read and parsed
/// with `env_truthy`): stability turns high priority off and adds `--disable-gpu`; an explicit
/// high-priority switch wins; an explicit GPU switch adds or removes `--disable-gpu`.
pub fn apply_launch_stability_overrides(
    config: &mut BrowserChromeLaunchConfig,
    stability_profile: bool,
    env_stability: Option<bool>,
    env_high_priority: Option<bool>,
    env_disable_gpu: Option<bool>,
)
    ensures
        final(config).use_high_priority == stable_high_priority(
            old(config).use_high_priority,
            stability_profile || env_stability == Some(true),
            env_high_priority,
        ),
        views(final(config).extra_args@) == stable_extra_args(
            views(old(config).extra_args@),
            stability_profile || env_stability == Some(true),
            env_disable_gpu,
        ),
        views(final(config).launch_args@) == views(old(config).launch_args@),
        views(final(config).disabled_features@) == views(old(config).disabled_features@),
{
    let stability = stability_profile || match env_stability {
        Some(v) => v,
        None => false,
    };
    if stability {
        config.use_high_priority = false;
        ensure_flag(&mut config.extra_args, "--disable-gpu");
    }
    if let Some(high_priority) = env_high_priority {
        config.use_high_priority = high_priority;
    }
    match env_disable_gpu {
        Some(true) => ensure_flag(&mut config.extra_args, "--disable-gpu"),
        Some(false) => remove_exact(&mut config.extra_args, "--disable-gpu"),
        None => {},
    }
}

} // verus!
