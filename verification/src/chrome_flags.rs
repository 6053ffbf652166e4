//! Launch flags and disabled feature gates for the Chrome speech worker.
use vstd::prelude::*;

use crate::text::{
    append_str, join, join_strings, starts_with, starts_with_str, str_eq, to_owned_string,
    vec_contains_str, vec_has, views,
};

verus! {

/// Feature gates disabled for Web Speech stability.
pub open spec fn disabled_features_spec() -> Seq<Seq<char>> {
    seq![
        "CalculateNativeWinOcclusion"@,
        "HighEfficiencyModeAvailable"@,
        "HeuristicMemorySaver"@,
        "IntensiveWakeUpThrottling"@,
        "GlobalMediaControls"@,
    ]
}

/// Feature gates that block large on-device model downloads in the worker profile.
pub open spec fn disk_bloat_features_spec() -> Seq<Seq<char>> {
    seq![
        "OptimizationGuideModelDownloading"@,
        "OptimizationGuideOnDeviceModel"@,
        "OptimizationHints"@,
        "OptimizationHintsFetching"@,
        "OnDeviceModelBackgroundDownload"@,
    ]
}

/// Launch flags that keep the worker profile from accumulating component / sync data.
pub open spec fn disk_bloat_flags_spec() -> Seq<Seq<char>> {
    seq!["--disable-component-update"@, "--disable-sync"@]
}

/// Launch flags always applied to the speech worker.
pub open spec fn anti_throttle_flags_spec() -> Seq<Seq<char>> {
    seq![
        "--new-window"@,
        "--no-first-run"@,
        "--no-default-browser-check"@,
        "--disable-default-apps"@,
        "--disable-session-crashed-bubble"@,
        "--disable-backgrounding-occluded-windows"@,
        "--disable-renderer-backgrounding"@,
        "--disable-background-timer-throttling"@,
        "--noerrdialogs"@,
        "--window-size=980,860"@,
    ]
}

/// Prefixes of arguments that a worker launch never carries (kiosk / hidden profile).
pub open spec fn forbidden_flags_spec() -> Seq<Seq<char>> {
    seq!["--app="@, "--disable-extensions"@, "--bwsi"@]
}

/// Arguments that only the launch itself sets.
pub open spec fn launch_time_only_spec() -> Seq<Seq<char>> {
    seq!["--user-data-dir="@, "--disable-features="@]
}

fn push_str(v: &mut Vec<String>, s: &str)
    ensures
        views(final(v)@) == views(old(v)@).push(s@),
{
    let ghost before = views(v@);
    v.push(to_owned_string(s));
    assert(views(v@) =~= before.push(s@));
}

pub fn disabled_chrome_features() -> (r: Vec<String>)
    ensures
        views(r@) == disabled_features_spec(),
{
    let mut v: Vec<String> = Vec::new();
    push_str(&mut v, "CalculateNativeWinOcclusion");
    push_str(&mut v, "HighEfficiencyModeAvailable");
    push_str(&mut v, "HeuristicMemorySaver");
    push_str(&mut v, "IntensiveWakeUpThrottling");
    push_str(&mut v, "GlobalMediaControls");
    assert(views(v@) =~= disabled_features_spec());
    v
}

pub fn disabled_chrome_disk_bloat_features() -> (r: Vec<String>)
    ensures
        views(r@) == disk_bloat_features_spec(),
{
    let mut v: Vec<String> = Vec::new();
    push_str(&mut v, "OptimizationGuideModelDownloading");
    push_str(&mut v, "OptimizationGuideOnDeviceModel");
    push_str(&mut v, "OptimizationHints");
    push_str(&mut v, "OptimizationHintsFetching");
    push_str(&mut v, "OnDeviceModelBackgroundDownload");
    assert(views(v@) =~= disk_bloat_features_spec());
    v
}

pub fn chrome_disk_bloat_guard_flags() -> (r: Vec<String>)
    ensures
        views(r@) == disk_bloat_flags_spec(),
{
    let mut v: Vec<String> = Vec::new();
    push_str(&mut v, "--disable-component-update");
    push_str(&mut v, "--disable-sync");
    assert(views(v@) =~= disk_bloat_flags_spec());
    v
}

pub fn chrome_anti_throttle_flags() -> (r: Vec<String>)
    ensures
        views(r@) == anti_throttle_flags_spec(),
{
    let mut v: Vec<String> = Vec::new();
    push_str(&mut v, "--new-window");
    push_str(&mut v, "--no-first-run");
    push_str(&mut v, "--no-default-browser-check");
    push_str(&mut v, "--disable-default-apps");
    push_str(&mut v, "--disable-session-crashed-bubble");
    push_str(&mut v, "--disable-backgrounding-occluded-windows");
    push_str(&mut v, "--disable-renderer-backgrounding");
    push_str(&mut v, "--disable-background-timer-throttling");
    push_str(&mut v, "--noerrdialogs");
    push_str(&mut v, "--window-size=980,860");
    assert(views(v@) =~= anti_throttle_flags_spec());
    v
}

pub fn forbidden_worker_launch_flags() -> (r: Vec<String>)
    ensures
        views(r@) == forbidden_flags_spec(),
{
    let mut v: Vec<String> = Vec::new();
    push_str(&mut v, "--app=");
    push_str(&mut v, "--disable-extensions");
    push_str(&mut v, "--bwsi");
    assert(views(v@) =~= forbidden_flags_spec());
    v
}

fn launch_time_only_flags() -> (r: Vec<String>)
    ensures
        views(r@) == launch_time_only_spec(),
{
    let mut v: Vec<String> = Vec::new();
    push_str(&mut v, "--user-data-dir=");
    push_str(&mut v, "--disable-features=");
    assert(views(v@) =~= launch_time_only_spec());
    v
}

/// `DISABLED_CHROME_FEATURES.join(",")`.
pub fn disabled_chrome_features_csv() -> (r: String)
    ensures
        r@ == join(disabled_features_spec(), ","@),
{
    join_strings(&disabled_chrome_features(), ",")
}

/// Index of the first `=` at or after `i` (or the length).
pub open spec fn first_eq_from(s: Seq<char>, i: int) -> int
    decreases s.len() - i,
{
    if 0 <= i < s.len() && s[i] != '=' {
        first_eq_from(s, i + 1)
    } else {
        i
    }
}

/// The flag name: everything before the first `=`.
pub open spec fn flag_key(r: Seq<char>) -> Seq<char> {
    r.subrange(0, first_eq_from(r, 0))
}

/// `arg` sets the flag `r` (exactly, by its bare name, or with any value).
pub open spec fn arg_sets_flag(arg: Seq<char>, r: Seq<char>) -> bool {
    arg == r || arg == flag_key(r) || starts_with(arg, flag_key(r).push('='))
}

pub open spec fn flag_in(args: Seq<Seq<char>>, r: Seq<char>) -> bool {
    exists|i: int| 0 <= i < args.len() && arg_sets_flag(#[trigger] args[i], r)
}

/// Arguments after each required flag that is not yet set has been appended, in order.
pub open spec fn ensured_flags(args: Seq<Seq<char>>, reqs: Seq<Seq<char>>) -> Seq<Seq<char>>
    decreases reqs.len(),
{
    if reqs.len() == 0 {
        args
    } else {
        let a = ensured_flags(args, reqs.drop_last());
        if flag_in(a, reqs.last()) {
            a
        } else {
            a.push(reqs.last())
        }
    }
}

/// Features after each required feature that is missing has been appended, in order.
pub open spec fn ensured_features(feats: Seq<Seq<char>>, reqs: Seq<Seq<char>>) -> Seq<Seq<char>>
    decreases reqs.len(),
{
    if reqs.len() == 0 {
        feats
    } else {
        let a = ensured_features(feats, reqs.drop_last());
        if a.contains(reqs.last()) {
            a
        } else {
            a.push(reqs.last())
        }
    }
}

pub open spec fn has_prefix_in(a: Seq<char>, prefixes: Seq<Seq<char>>) -> bool {
    exists|j: int| 0 <= j < prefixes.len() && starts_with(a, #[trigger] prefixes[j])
}

/// `args` with every argument that starts with one of `prefixes` removed, order kept.
pub open spec fn without_prefixed(args: Seq<Seq<char>>, prefixes: Seq<Seq<char>>) -> Seq<
    Seq<char>,
>
    decreases args.len(),
{
    if args.len() == 0 {
        Seq::empty()
    } else if has_prefix_in(args.last(), prefixes) {
        without_prefixed(args.drop_last(), prefixes)
    } else {
        without_prefixed(args.drop_last(), prefixes).push(args.last())
    }
}

fn flag_key_len(r: &Vec<char>) -> (k: usize)
    ensures
        k == first_eq_from(r@, 0),
{
    let mut k: usize = 0;
    while k < r.len() && r[k] != '='
        invariant
            k <= r.len(),
            first_eq_from(r@, 0) == first_eq_from(r@, k as int),
        decreases r.len() - k,
    {
        k = k + 1;
    }
    k
}

pub proof fn lemma_first_eq_bound(s: Seq<char>, i: int)
    requires
        0 <= i <= s.len(),
    ensures
        i <= first_eq_from(s, i) <= s.len(),
    decreases s.len() - i,
{
    if i < s.len() && s[i] != '=' {
        lemma_first_eq_bound(s, i + 1);
    }
}

/// Whether some argument already sets `required` (by name, exactly or with a value).
pub fn flag_present(args: &Vec<String>, required: &str) -> (r: bool)
    ensures
        r == flag_in(views(args@), required@),
{
    let rv = crate::text::chars_of(required);
    let k = flag_key_len(&rv);
    proof {
        lemma_first_eq_bound(required@, 0);
    }
    let key = crate::text::string_from_range(&rv, 0, k);
    let mut key_eq = key.clone();
    crate::text::push_char(&mut key_eq, '=');
    let mut i: usize = 0;
    while i < args.len()
        invariant
            i <= args.len(),
            key@ == flag_key(required@),
            key_eq@ == flag_key(required@).push('='),
            forall|m: int| 0 <= m < i ==> !arg_sets_flag(#[trigger] views(args@)[m], required@),
        decreases args.len() - i,
    {
        let a = args[i].as_str();
        assert(views(args@)[i as int] == a@);
        if str_eq(a, required) || str_eq(a, key.as_str()) || starts_with_str(a, key_eq.as_str()) {
            return true;
        }
        i = i + 1;
    }
    false
}

pub proof fn lemma_flag_in_push(args: Seq<Seq<char>>, a: Seq<char>, r: Seq<char>)
    requires
        flag_in(args, r),
    ensures
        flag_in(args.push(a), r),
{
    let i = choose|i: int| 0 <= i < args.len() && arg_sets_flag(#[trigger] args[i], r);
    assert(args.push(a)[i] == args[i]);
}

/// Appends each flag of `reqs` that `args` does not set yet.
pub fn ensure_flags(args: &mut Vec<String>, reqs: &Vec<String>)
    ensures
        views(final(args)@) == ensured_flags(views(old(args)@), views(reqs@)),
{
    let ghost a0 = views(args@);
    let mut i: usize = 0;
    while i < reqs.len()
        invariant
            i <= reqs.len(),
            views(args@) == ensured_flags(a0, views(reqs@).take(i as int)),
        decreases reqs.len() - i,
    {
        let ghost rs = views(reqs@);
        assert(rs.take(i + 1).drop_last() =~= rs.take(i as int));
        assert(rs.take(i + 1).last() == reqs@[i as int]@);
        if !flag_present(args, reqs[i].as_str()) {
            let ghost before = views(args@);
            args.push(reqs[i].clone());
            assert(views(args@) =~= before.push(reqs@[i as int]@));
        }
        i = i + 1;
    }
    assert(views(reqs@).take(reqs.len() as int) =~= views(reqs@));
}

/// Appends each feature of `reqs` that `feats` does not hold yet.
pub fn ensure_features(feats: &mut Vec<String>, reqs: &Vec<String>)
    ensures
        views(final(feats)@) == ensured_features(views(old(feats)@), views(reqs@)),
{
    let ghost a0 = views(feats@);
    let mut i: usize = 0;
    while i < reqs.len()
        invariant
            i <= reqs.len(),
            views(feats@) == ensured_features(a0, views(reqs@).take(i as int)),
        decreases reqs.len() - i,
    {
        let ghost rs = views(reqs@);
        assert(rs.take(i + 1).drop_last() =~= rs.take(i as int));
        assert(rs.take(i + 1).last() == reqs@[i as int]@);
        let present = vec_contains_str(feats, reqs[i].as_str());
        proof {
            let fv = views(feats@);
            if present {
                let k = choose|k: int| 0 <= k < feats@.len() && (#[trigger] feats@[k])@ == reqs@[i as int]@;
                assert(fv[k] == feats@[k]@);
            } else {
                assert forall|k: int| 0 <= k < fv.len() implies fv[k] != reqs@[i as int]@ by {
                    assert(fv[k] == feats@[k]@);
                }
            }
        }
        if !present {
            let ghost before = views(feats@);
            feats.push(reqs[i].clone());
            assert(views(feats@) =~= before.push(reqs@[i as int]@));
        }
        i = i + 1;
    }
    assert(views(reqs@).take(reqs.len() as int) =~= views(reqs@));
}

/// Keeps the arguments that start with none of `prefixes`, in order.
pub fn remove_prefixed(args: &mut Vec<String>, prefixes: &Vec<String>)
    ensures
        views(final(args)@) == without_prefixed(views(old(args)@), views(prefixes@)),
{
    let ghost a0 = views(args@);
    let mut out: Vec<String> = Vec::new();
    let mut i: usize = 0;
    while i < args.len()
        invariant
            i <= args.len(),
            a0 == views(args@),
            views(out@) == without_prefixed(a0.take(i as int), views(prefixes@)),
        decreases args.len() - i,
    {
        assert(a0.take(i + 1).drop_last() =~= a0.take(i as int));
        assert(a0.take(i + 1).last() == args@[i as int]@);
        let a = args[i].as_str();
        let mut hit = false;
        let mut j: usize = 0;
        while j < prefixes.len()
            invariant
                j <= prefixes.len(),
                a@ == args@[i as int]@,
                hit == exists|m: int| 0 <= m < j && starts_with(a@, #[trigger] views(prefixes@)[m]),
            decreases prefixes.len() - j,
        {
            let ghost pv = views(prefixes@);
            assert(pv[j as int] == prefixes@[j as int]@);
            if starts_with_str(a, prefixes[j].as_str()) {
                hit = true;
            }
            proof {
                if !hit {
                    assert forall|m: int| 0 <= m < j + 1 implies !starts_with(a@, #[trigger] pv[m]) by {
                    }
                }
            }
            j = j + 1;
        }
        if !hit {
            let ghost before = views(out@);
            out.push(args[i].clone());
            assert(views(out@) =~= before.push(a@));
        }
        i = i + 1;
    }
    assert(a0.take(args.len() as int) =~= a0);
    *args = out;
}

/// Strips every argument that starts with a forbidden worker prefix.
pub fn sanitize_forbidden_launch_args(args: &mut Vec<String>)
    ensures
        views(final(args)@) == without_prefixed(views(old(args)@), forbidden_flags_spec()),
{
    remove_prefixed(args, &forbidden_worker_launch_flags());
}

/// Strips arguments that only the launch itself sets (profile dir, disabled features).
pub fn strip_launch_time_only_flags(args: &mut Vec<String>)
    ensures
        views(final(args)@) == without_prefixed(views(old(args)@), launch_time_only_spec()),
{
    remove_prefixed(args, &launch_time_only_flags());
}

pub fn ensure_sst_launch_flags(args: &mut Vec<String>)
    ensures
        views(final(args)@) == ensured_flags(views(old(args)@), anti_throttle_flags_spec()),
{
    ensure_flags(args, &chrome_anti_throttle_flags());
}

pub fn ensure_disk_bloat_guard_flags(args: &mut Vec<String>)
    ensures
        views(final(args)@) == ensured_flags(views(old(args)@), disk_bloat_flags_spec()),
{
    ensure_flags(args, &chrome_disk_bloat_guard_flags());
}

pub fn ensure_sst_disabled_features(features: &mut Vec<String>)
    ensures
        views(final(features)@) == ensured_features(views(old(features)@), disabled_features_spec()),
{
    ensure_features(features, &disabled_chrome_features());
}

pub fn ensure_disk_bloat_guard_features(features: &mut Vec<String>)
    ensures
        views(final(features)@) == ensured_features(
            views(old(features)@),
            disk_bloat_features_spec(),
        ),
{
    ensure_features(features, &disabled_chrome_disk_bloat_features());
}

/// Anti-throttle flags followed by the disk-bloat guard flags.
pub fn default_anti_throttle_args() -> (r: Vec<String>)
    ensures
        views(r@) == anti_throttle_flags_spec() + disk_bloat_flags_spec(),
{
    let mut v = chrome_anti_throttle_flags();
    let mut b = chrome_disk_bloat_guard_flags();
    let ghost va = views(v@);
    let ghost vb = views(b@);
    v.append(&mut b);
    assert(views(v@) =~= va + vb);
    v
}

/// Stability features followed by the disk-bloat features.
pub fn default_disabled_chrome_features() -> (r: Vec<String>)
    ensures
        views(r@) == disabled_features_spec() + disk_bloat_features_spec(),
{
    let mut v = disabled_chrome_features();
    let mut b = disabled_chrome_disk_bloat_features();
    let ghost va = views(v@);
    let ghost vb = views(b@);
    v.append(&mut b);
    assert(views(v@) =~= va + vb);
    v
}

pub struct BrowserChromeLaunchConfig {
    pub launch_args: Vec<String>,
    pub disabled_features: Vec<String>,
    pub extra_args: Vec<String>,
    pub use_high_priority: bool,
}

/// Launch arguments after `finalize_chrome_launch_config`.
pub open spec fn finalized_launch_args(args: Seq<Seq<char>>) -> Seq<Seq<char>> {
    without_prefixed(
        ensured_flags(ensured_flags(args, anti_throttle_flags_spec()), disk_bloat_flags_spec()),
        forbidden_flags_spec(),
    )
}

/// Disabled features after `finalize_chrome_launch_config`.
pub open spec fn finalized_features(feats: Seq<Seq<char>>) -> Seq<Seq<char>> {
    ensured_features(ensured_features(feats, disabled_features_spec()), disk_bloat_features_spec())
}

/// Merges the required launch flags and disabled features in, then strips forbidden arguments.
pub fn finalize_chrome_launch_config(config: &mut BrowserChromeLaunchConfig)
    ensures
        views(final(config).launch_args@) == finalized_launch_args(views(old(config).launch_args@)),
        views(final(config).disabled_features@) == finalized_features(
            views(old(config).disabled_features@),
        ),
        views(final(config).extra_args@) == without_prefixed(
            views(old(config).extra_args@),
            forbidden_flags_spec(),
        ),
        final(config).use_high_priority == old(config).use_high_priority,
{
    ensure_sst_launch_flags(&mut config.launch_args);
    ensure_disk_bloat_guard_flags(&mut config.launch_args);
    ensure_sst_disabled_features(&mut config.disabled_features);
    ensure_disk_bloat_guard_features(&mut config.disabled_features);
    sanitize_forbidden_launch_args(&mut config.launch_args);
    sanitize_forbidden_launch_args(&mut config.extra_args);
}

fn clone_strings(v: &Vec<String>) -> (r: Vec<String>)
    ensures
        views(r@) == views(v@),
{
    let mut out: Vec<String> = Vec::new();
    let mut i: usize = 0;
    while i < v.len()
        invariant
            i <= v.len(),
            views(out@) == views(v@).take(i as int),
        decreases v.len() - i,
    {
        let ghost before = views(out@);
        out.push(v[i].clone());
        assert(views(out@) =~= before.push(v@[i as int]@));
        assert(views(v@).take(i + 1) =~= views(v@).take(i as int).push(v@[i as int]@));
        i = i + 1;
    }
    assert(views(v@).take(v.len() as int) =~= views(v@));
    out
}

/// The worker command line for `worker_url` with profile directory `profile_dir`.
pub open spec fn launch_args_spec(
    c_launch: Seq<Seq<char>>,
    c_features: Seq<Seq<char>>,
    c_extra: Seq<Seq<char>>,
    profile_dir: Seq<char>,
    worker_url: Seq<char>,
) -> Seq<Seq<char>> {
    without_prefixed(
        finalized_launch_args(c_launch) + without_prefixed(c_extra, forbidden_flags_spec()),
        launch_time_only_spec(),
    ).push("--user-data-dir="@ + profile_dir).push(
        "--disable-features="@ + join(finalized_features(c_features), ","@),
    ).push(worker_url)
}

impl BrowserChromeLaunchConfig {
    pub fn default() -> (r: Self)
        ensures
            views(r.launch_args@) == anti_throttle_flags_spec() + disk_bloat_flags_spec(),
            views(r.disabled_features@) == disabled_features_spec() + disk_bloat_features_spec(),
            r.extra_args@.len() == 0,
            r.use_high_priority,
    {
        BrowserChromeLaunchConfig {
            launch_args: default_anti_throttle_args(),
            disabled_features: default_disabled_chrome_features(),
            extra_args: Vec::new(),
            use_high_priority: true,
        }
    }

    pub fn clone(&self) -> (r: Self)
        ensures
            views(r.launch_args@) == views(self.launch_args@),
            views(r.disabled_features@) == views(self.disabled_features@),
            views(r.extra_args@) == views(self.extra_args@),
            r.use_high_priority == self.use_high_priority,
    {
        BrowserChromeLaunchConfig {
            launch_args: clone_strings(&self.launch_args),
            disabled_features: clone_strings(&self.disabled_features),
            extra_args: clone_strings(&self.extra_args),
            use_high_priority: self.use_high_priority,
        }
    }

    pub fn disabled_features_csv(&self) -> (r: String)
        ensures
            r@ == join(views(self.disabled_features@), ","@),
    {
        join_strings(&self.disabled_features, ",")
    }

    /// Finalized launch arguments, extra arguments, then profile dir, disabled features and URL.
    pub fn launch_args_for_url(&self, profile_dir: &str, worker_url: &str) -> (r: Vec<String>)
        ensures
            views(r@) == launch_args_spec(
                views(self.launch_args@),
                views(self.disabled_features@),
                views(self.extra_args@),
                profile_dir@,
                worker_url@,
            ),
    {
        let mut config = self.clone();
        finalize_chrome_launch_config(&mut config);
        let disabled_features = config.disabled_features_csv();
        let mut args = config.launch_args;
        let mut extra = config.extra_args;
        let ghost va = views(args@);
        let ghost ve = views(extra@);
        args.append(&mut extra);
        assert(views(args@) =~= va + ve);
        strip_launch_time_only_flags(&mut args);
        let mut dir_arg = to_owned_string("--user-data-dir=");
        append_str(&mut dir_arg, profile_dir);
        let mut feat_arg = to_owned_string("--disable-features=");
        append_str(&mut feat_arg, disabled_features.as_str());
        let ghost v0 = views(args@);
        args.push(dir_arg);
        args.push(feat_arg);
        args.push(to_owned_string(worker_url));
        assert(views(args@) =~= v0.push(dir_arg@).push(feat_arg@).push(worker_url@));
        args
    }
}

pub proof fn lemma_ensured_flags_sets_all(args: Seq<Seq<char>>, reqs: Seq<Seq<char>>)
    ensures
        forall|k: int| 0 <= k < reqs.len() ==> flag_in(ensured_flags(args, reqs), #[trigger] reqs[k]),
        forall|r: Seq<char>| flag_in(args, r) ==> flag_in(ensured_flags(args, reqs), r),
    decreases reqs.len(),
{
    if reqs.len() > 0 {
        let init = reqs.drop_last();
        lemma_ensured_flags_sets_all(args, init);
        let a = ensured_flags(args, init);
        let last = reqs.last();
        if !flag_in(a, last) {
            assert(arg_sets_flag(a.push(last)[a.len() as int], last));
            assert forall|r: Seq<char>| flag_in(a, r) implies flag_in(a.push(last), r) by {
                lemma_flag_in_push(a, last, r);
            }
        }
        assert forall|k: int| 0 <= k < reqs.len() implies flag_in(
            ensured_flags(args, reqs),
            #[trigger] reqs[k],
        ) by {
            if k < reqs.len() - 1 {
                assert(reqs[k] == init[k]);
            }
        }
    }
}

pub proof fn lemma_ensured_features_has_all(feats: Seq<Seq<char>>, reqs: Seq<Seq<char>>)
    ensures
        forall|k: int| 0 <= k < reqs.len() ==> ensured_features(feats, reqs).contains(#[trigger] reqs[k]),
        forall|f: Seq<char>| feats.contains(f) ==> ensured_features(feats, reqs).contains(f),
    decreases reqs.len(),
{
    if reqs.len() > 0 {
        let init = reqs.drop_last();
        lemma_ensured_features_has_all(feats, init);
        let a = ensured_features(feats, init);
        let last = reqs.last();
        if !a.contains(last) {
            assert(a.push(last)[a.len() as int] == last);
            assert forall|f: Seq<char>| a.contains(f) implies a.push(last).contains(f) by {
                let i = choose|i: int| 0 <= i < a.len() && a[i] == f;
                assert(a.push(last)[i] == f);
            }
        }
        assert forall|k: int| 0 <= k < reqs.len() implies ensured_features(feats, reqs).contains(
            #[trigger] reqs[k],
        ) by {
            if k < reqs.len() - 1 {
                assert(reqs[k] == init[k]);
            }
        }
    }
}

pub proof fn lemma_without_prefixed(args: Seq<Seq<char>>, prefixes: Seq<Seq<char>>)
    ensures
        forall|i: int|
            0 <= i < without_prefixed(args, prefixes).len() ==> !has_prefix_in(
                #[trigger] without_prefixed(args, prefixes)[i],
                prefixes,
            ),
        forall|a: Seq<char>|
            args.contains(a) && !has_prefix_in(a, prefixes) ==> without_prefixed(
                args,
                prefixes,
            ).contains(a),
        forall|a: Seq<char>| without_prefixed(args, prefixes).contains(a) ==> args.contains(a),
    decreases args.len(),
{
    if args.len() > 0 {
        let init = args.drop_last();
        lemma_without_prefixed(init, prefixes);
        let w = without_prefixed(init, prefixes);
        let last = args.last();
        assert forall|a: Seq<char>| init.contains(a) implies args.contains(a) by {
            let i = choose|i: int| 0 <= i < init.len() && init[i] == a;
            assert(args[i] == a);
        }
        assert(args[args.len() - 1] == last);
        if !has_prefix_in(last, prefixes) {
            assert forall|i: int| 0 <= i < w.push(last).len() implies !has_prefix_in(
                #[trigger] w.push(last)[i],
                prefixes,
            ) by {
                if i < w.len() {
                    assert(w.push(last)[i] == w[i]);
                }
            }
            assert forall|a: Seq<char>| w.contains(a) implies w.push(last).contains(a) by {
                let i = choose|i: int| 0 <= i < w.len() && w[i] == a;
                assert(w.push(last)[i] == a);
            }
            assert(w.push(last)[w.len() as int] == last);
            assert forall|a: Seq<char>| w.push(last).contains(a) implies args.contains(a) by {
                let i = choose|i: int| 0 <= i < w.push(last).len() && w.push(last)[i] == a;
                if i < w.len() {
                    assert(w.push(last)[i] == w[i]);
                    assert(w.contains(a));
                }
            }
        }
        assert forall|a: Seq<char>|
            args.contains(a) && !has_prefix_in(a, prefixes) implies without_prefixed(
            args,
            prefixes,
        ).contains(a) by {
            let i = choose|i: int| 0 <= i < args.len() && args[i] == a;
            if i < args.len() - 1 {
                assert(init[i] == a);
                assert(init.contains(a));
            }
        }
    }
}

/// Law: after finalizing, no launch argument and no extra argument starts with a
/// forbidden worker prefix, and every disabled feature (stability and disk-bloat) is listed.
pub proof fn law_finalize_strips_forbidden_and_lists_features(
    launch: Seq<Seq<char>>,
    feats: Seq<Seq<char>>,
    extra: Seq<Seq<char>>,
)
    ensures
        forall|i: int|
            0 <= i < finalized_launch_args(launch).len() ==> !has_prefix_in(
                #[trigger] finalized_launch_args(launch)[i],
                forbidden_flags_spec(),
            ),
        forall|i: int|
            0 <= i < without_prefixed(extra, forbidden_flags_spec()).len() ==> !has_prefix_in(
                #[trigger] without_prefixed(extra, forbidden_flags_spec())[i],
                forbidden_flags_spec(),
            ),
        forall|k: int|
            0 <= k < disabled_features_spec().len() ==> finalized_features(feats).contains(
                #[trigger] disabled_features_spec()[k],
            ),
        forall|k: int|
            0 <= k < disk_bloat_features_spec().len() ==> finalized_features(feats).contains(
                #[trigger] disk_bloat_features_spec()[k],
            ),
        forall|f: Seq<char>| feats.contains(f) ==> finalized_features(feats).contains(f),
{
    let launch2 = ensured_flags(ensured_flags(launch, anti_throttle_flags_spec()), disk_bloat_flags_spec());
    lemma_without_prefixed(launch2, forbidden_flags_spec());
    lemma_without_prefixed(extra, forbidden_flags_spec());
    let f1 = ensured_features(feats, disabled_features_spec());
    lemma_ensured_features_has_all(feats, disabled_features_spec());
    lemma_ensured_features_has_all(f1, disk_bloat_features_spec());
}

/// Law: the merge step sets every required launch flag (anti-throttle and disk-bloat guard)
/// and keeps every flag the caller already set.
pub proof fn law_merge_sets_required_flags(launch: Seq<Seq<char>>)
    ensures
        forall|k: int|
            0 <= k < anti_throttle_flags_spec().len() ==> flag_in(
                ensured_flags(
                    ensured_flags(launch, anti_throttle_flags_spec()),
                    disk_bloat_flags_spec(),
                ),
                #[trigger] anti_throttle_flags_spec()[k],
            ),
        forall|k: int|
            0 <= k < disk_bloat_flags_spec().len() ==> flag_in(
                ensured_flags(
                    ensured_flags(launch, anti_throttle_flags_spec()),
                    disk_bloat_flags_spec(),
                ),
                #[trigger] disk_bloat_flags_spec()[k],
            ),
        forall|r: Seq<char>|
            flag_in(launch, r) ==> flag_in(
                ensured_flags(
                    ensured_flags(launch, anti_throttle_flags_spec()),
                    disk_bloat_flags_spec(),
                ),
                r,
            ),
{
    let a1 = ensured_flags(launch, anti_throttle_flags_spec());
    lemma_ensured_flags_sets_all(launch, anti_throttle_flags_spec());
    lemma_ensured_flags_sets_all(a1, disk_bloat_flags_spec());
}

} // verus!
verus! {

pub proof fn lemma_sets_flag_starts_with_key(a: Seq<char>, r: Seq<char>)
    requires
        arg_sets_flag(a, r),
    ensures
        starts_with(a, flag_key(r)),
{
    lemma_first_eq_bound(r, 0);
    let key = flag_key(r);
    if a == r {
        assert(a.subrange(0, key.len() as int) =~= key);
    } else if a == key {
        assert(a.subrange(0, key.len() as int) =~= key);
    } else {
        let kp = key.push('=');
        assert(a.subrange(0, kp.len() as int) == kp);
        assert forall|m: int| 0 <= m < key.len() implies a.subrange(0, key.len() as int)[m] == key[m] by {
            assert(a.subrange(0, kp.len() as int)[m] == a[m]);
            assert(kp[m] == key[m]);
        }
        assert(a.subrange(0, key.len() as int) =~= key);
    }
}

pub proof fn lemma_prefix_conflict(a: Seq<char>, p1: Seq<char>, p2: Seq<char>, k: int)
    requires
        starts_with(a, p1),
        starts_with(a, p2),
        0 <= k < p1.len(),
        k < p2.len(),
    ensures
        p1[k] == p2[k],
{
    assert(a.subrange(0, p1.len() as int)[k] == a[k]);
    assert(a.subrange(0, p2.len() as int)[k] == a[k]);
}

/// No argument that sets a required worker flag starts with a forbidden prefix.
pub proof fn lemma_required_flag_not_forbidden(r: Seq<char>, a: Seq<char>)
    requires
        (anti_throttle_flags_spec() + disk_bloat_flags_spec()).contains(r),
        arg_sets_flag(a, r),
    ensures
        !has_prefix_in(a, forbidden_flags_spec()),
{
    lemma_sets_flag_starts_with_key(a, r);
    if has_prefix_in(a, forbidden_flags_spec()) {
        reveal_strlit("--new-window");
        reveal_strlit("--no-first-run");
        reveal_strlit("--no-default-browser-check");
        reveal_strlit("--disable-default-apps");
        reveal_strlit("--disable-session-crashed-bubble");
        reveal_strlit("--disable-backgrounding-occluded-windows");
        reveal_strlit("--disable-renderer-backgrounding");
        reveal_strlit("--disable-background-timer-throttling");
        reveal_strlit("--noerrdialogs");
        reveal_strlit("--window-size=980,860");
        reveal_strlit("--disable-component-update");
        reveal_strlit("--disable-sync");
        reveal_strlit("--app=");
        reveal_strlit("--disable-extensions");
        reveal_strlit("--bwsi");
        reveal_with_fuel(first_eq_from, 45);
        let fs = forbidden_flags_spec();
        let j = choose|j: int| 0 <= j < fs.len() && starts_with(a, #[trigger] fs[j]);
        let f = fs[j];
        let key = flag_key(r);
        let k: int = if key[2] == 'd' && f[2] == 'd' { 10 } else { 2 };
        lemma_prefix_conflict(a, key, f, k);
        assert(false);
    }
}

/// Law: a finalized worker configuration sets every required launch flag (anti-throttle
/// and disk-bloat guard), whatever the caller's arguments were.
pub proof fn law_finalize_sets_required_flags(launch: Seq<Seq<char>>)
    ensures
        forall|k: int|
            0 <= k < (anti_throttle_flags_spec() + disk_bloat_flags_spec()).len() ==> flag_in(
                finalized_launch_args(launch),
                #[trigger] (anti_throttle_flags_spec() + disk_bloat_flags_spec())[k],
            ),
{
    let req = anti_throttle_flags_spec() + disk_bloat_flags_spec();
    let merged = ensured_flags(ensured_flags(launch, anti_throttle_flags_spec()), disk_bloat_flags_spec());
    law_merge_sets_required_flags(launch);
    lemma_without_prefixed(merged, forbidden_flags_spec());
    assert forall|k: int| 0 <= k < req.len() implies flag_in(
        finalized_launch_args(launch),
        #[trigger] req[k],
    ) by {
        let r = req[k];
        assert(req.contains(r));
        if k < anti_throttle_flags_spec().len() {
            assert(r == anti_throttle_flags_spec()[k]);
        } else {
            assert(r == disk_bloat_flags_spec()[k - anti_throttle_flags_spec().len()]);
        }
        assert(flag_in(merged, r));
        let i = choose|i: int| 0 <= i < merged.len() && arg_sets_flag(#[trigger] merged[i], r);
        let a = merged[i];
        lemma_required_flag_not_forbidden(r, a);
        assert(merged.contains(a));
        let fin = finalized_launch_args(launch);
        assert(fin.contains(a));
        let m = choose|m: int| 0 <= m < fin.len() && fin[m] == a;
        assert(arg_sets_flag(fin[m], r));
    }
}

/// When every flag of `reqs` is already set, merging them in changes nothing.
pub proof fn lemma_ensured_flags_when_all_set(b: Seq<Seq<char>>, reqs: Seq<Seq<char>>)
    requires
        forall|k: int| 0 <= k < reqs.len() ==> flag_in(b, #[trigger] reqs[k]),
    ensures
        ensured_flags(b, reqs) == b,
    decreases reqs.len(),
{
    if reqs.len() > 0 {
        let init = reqs.drop_last();
        assert forall|k: int| 0 <= k < init.len() implies flag_in(b, #[trigger] init[k]) by {
            assert(init[k] == reqs[k]);
        }
        lemma_ensured_flags_when_all_set(b, init);
        assert(flag_in(b, reqs[reqs.len() - 1]));
    }
}

/// When every feature of `reqs` is already listed, merging them in changes nothing.
pub proof fn lemma_ensured_features_when_all_listed(b: Seq<Seq<char>>, reqs: Seq<Seq<char>>)
    requires
        forall|k: int| 0 <= k < reqs.len() ==> b.contains(#[trigger] reqs[k]),
    ensures
        ensured_features(b, reqs) == b,
    decreases reqs.len(),
{
    if reqs.len() > 0 {
        let init = reqs.drop_last();
        assert forall|k: int| 0 <= k < init.len() implies b.contains(#[trigger] init[k]) by {
            assert(init[k] == reqs[k]);
        }
        lemma_ensured_features_when_all_listed(b, init);
        assert(b.contains(reqs[reqs.len() - 1]));
    }
}

/// When no argument starts with one of `prefixes`, stripping them changes nothing.
pub proof fn lemma_without_prefixed_when_clean(args: Seq<Seq<char>>, prefixes: Seq<Seq<char>>)
    requires
        forall|i: int| 0 <= i < args.len() ==> !has_prefix_in(#[trigger] args[i], prefixes),
    ensures
        without_prefixed(args, prefixes) == args,
    decreases args.len(),
{
    if args.len() > 0 {
        let init = args.drop_last();
        assert forall|i: int| 0 <= i < init.len() implies !has_prefix_in(#[trigger] init[i], prefixes) by {
            assert(init[i] == args[i]);
        }
        lemma_without_prefixed_when_clean(init, prefixes);
        assert(!has_prefix_in(args[args.len() - 1], prefixes));
        assert(init.push(args.last()) =~= args);
    }
}

/// Merging flags only appends: the caller's arguments stay first, in their order, and
/// each appended argument is a required flag that the caller's arguments did not set.
pub proof fn lemma_ensured_flags_appends(args: Seq<Seq<char>>, reqs: Seq<Seq<char>>)
    ensures
        ensured_flags(args, reqs).len() >= args.len(),
        ensured_flags(args, reqs).subrange(0, args.len() as int) == args,
        forall|i: int|
            args.len() <= i < ensured_flags(args, reqs).len() ==> reqs.contains(
                #[trigger] ensured_flags(args, reqs)[i],
            ) && !flag_in(args, ensured_flags(args, reqs)[i]),
    decreases reqs.len(),
{
    if reqs.len() > 0 {
        let init = reqs.drop_last();
        lemma_ensured_flags_appends(args, init);
        lemma_ensured_flags_sets_all(args, init);
        let a = ensured_flags(args, init);
        let last = reqs.last();
        assert forall|x: Seq<char>| init.contains(x) implies reqs.contains(x) by {
            let k = choose|k: int| 0 <= k < init.len() && init[k] == x;
            assert(reqs[k] == x);
        }
        assert(reqs[reqs.len() - 1] == last);
        if !flag_in(a, last) {
            let b = a.push(last);
            assert(b.subrange(0, args.len() as int) =~= a.subrange(0, args.len() as int));
            assert forall|i: int| args.len() <= i < b.len() implies reqs.contains(#[trigger] b[i])
                && !flag_in(args, b[i]) by {
                if i < a.len() {
                    assert(b[i] == a[i]);
                } else {
                    assert(b[i] == last);
                }
            }
        }
    }
}

/// Law (`ensure_sst_launch_flags`): the caller's arguments stay first and in order; each
/// appended argument is an anti-throttle flag that was not set; afterwards every
/// anti-throttle flag is set; and a second call changes nothing.
pub proof fn law_ensure_sst_launch_flags(args: Seq<Seq<char>>)
    ensures
        ensured_flags(args, anti_throttle_flags_spec()).subrange(0, args.len() as int) == args,
        forall|i: int|
            args.len() <= i < ensured_flags(args, anti_throttle_flags_spec()).len()
                ==> anti_throttle_flags_spec().contains(
                #[trigger] ensured_flags(args, anti_throttle_flags_spec())[i],
            ) && !flag_in(args, ensured_flags(args, anti_throttle_flags_spec())[i]),
        forall|k: int|
            0 <= k < anti_throttle_flags_spec().len() ==> flag_in(
                ensured_flags(args, anti_throttle_flags_spec()),
                #[trigger] anti_throttle_flags_spec()[k],
            ),
        ensured_flags(ensured_flags(args, anti_throttle_flags_spec()), anti_throttle_flags_spec())
            == ensured_flags(args, anti_throttle_flags_spec()),
{
    let reqs = anti_throttle_flags_spec();
    lemma_ensured_flags_appends(args, reqs);
    lemma_ensured_flags_sets_all(args, reqs);
    lemma_ensured_flags_when_all_set(ensured_flags(args, reqs), reqs);
}

/// Law (`finalize_chrome_launch_config`): finalizing an already finalized configuration
/// changes nothing, for the launch arguments, the disabled features and the extra arguments.
pub proof fn law_finalize_is_idempotent(
    launch: Seq<Seq<char>>,
    feats: Seq<Seq<char>>,
    extra: Seq<Seq<char>>,
)
    ensures
        finalized_launch_args(finalized_launch_args(launch)) == finalized_launch_args(launch),
        finalized_features(finalized_features(feats)) == finalized_features(feats),
        without_prefixed(without_prefixed(extra, forbidden_flags_spec()), forbidden_flags_spec())
            == without_prefixed(extra, forbidden_flags_spec()),
{
    let at = anti_throttle_flags_spec();
    let db = disk_bloat_flags_spec();
    let fin = finalized_launch_args(launch);
    law_finalize_sets_required_flags(launch);
    law_finalize_strips_forbidden_and_lists_features(launch, feats, extra);
    assert forall|k: int| 0 <= k < at.len() implies flag_in(fin, #[trigger] at[k]) by {
        assert(at[k] == (at + db)[k]);
    }
    assert forall|k: int| 0 <= k < db.len() implies flag_in(fin, #[trigger] db[k]) by {
        assert(db[k] == (at + db)[k + at.len()]);
    }
    lemma_ensured_flags_when_all_set(fin, at);
    lemma_ensured_flags_when_all_set(fin, db);
    lemma_without_prefixed_when_clean(fin, forbidden_flags_spec());
    let ff = finalized_features(feats);
    lemma_ensured_features_when_all_listed(ff, disabled_features_spec());
    lemma_ensured_features_when_all_listed(ff, disk_bloat_features_spec());
    lemma_without_prefixed_when_clean(
        without_prefixed(extra, forbidden_flags_spec()),
        forbidden_flags_spec(),
    );
}

/// An argument that differs from `r` at index `m`, before `r`'s first `=`, does not set `r`.
proof fn lemma_differs_before_key(a: Seq<char>, r: Seq<char>, m: int)
    requires
        0 <= m < first_eq_from(r, 0),
        m < a.len() ==> a[m] != r[m],
    ensures
        !arg_sets_flag(a, r),
{
    lemma_first_eq_bound(r, 0);
    if arg_sets_flag(a, r) {
        lemma_sets_flag_starts_with_key(a, r);
        let key = flag_key(r);
        assert(a.subrange(0, key.len() as int)[m] == a[m]);
        assert(key[m] == r[m]);
    }
}

/// No other anti-throttle flag sets `--new-window`.
proof fn lemma_anti_throttle_sets_only_itself_0()
    ensures
        forall|i: int| 0 <= i < anti_throttle_flags_spec().len() && i != 0 ==> !arg_sets_flag(
            #[trigger] anti_throttle_flags_spec()[i],
            anti_throttle_flags_spec()[0],
        ),
{
    reveal_strlit("--new-window");
    reveal_strlit("--no-first-run");
    reveal_strlit("--no-default-browser-check");
    reveal_strlit("--disable-default-apps");
    reveal_strlit("--disable-session-crashed-bubble");
    reveal_strlit("--disable-backgrounding-occluded-windows");
    reveal_strlit("--disable-renderer-backgrounding");
    reveal_strlit("--disable-background-timer-throttling");
    reveal_strlit("--noerrdialogs");
    reveal_strlit("--window-size=980,860");
    reveal_with_fuel(first_eq_from, 45);
    let f = anti_throttle_flags_spec();
    lemma_differs_before_key(f[1], f[0], 3);
    lemma_differs_before_key(f[2], f[0], 3);
    lemma_differs_before_key(f[3], f[0], 2);
    lemma_differs_before_key(f[4], f[0], 2);
    lemma_differs_before_key(f[5], f[0], 2);
    lemma_differs_before_key(f[6], f[0], 2);
    lemma_differs_before_key(f[7], f[0], 2);
    lemma_differs_before_key(f[8], f[0], 3);
    lemma_differs_before_key(f[9], f[0], 2);
    assert forall|i: int| 0 <= i < f.len() && i != 0 implies !arg_sets_flag(#[trigger] f[i], f[0]) by {
        if i == 0 {
        } else if i == 1 {
        } else if i == 2 {
        } else if i == 3 {
        } else if i == 4 {
        } else if i == 5 {
        } else if i == 6 {
        } else if i == 7 {
        } else if i == 8 {
        } else if i == 9 {
        }
    }
}

/// No other anti-throttle flag sets `--no-first-run`.
proof fn lemma_anti_throttle_sets_only_itself_1()
    ensures
        forall|i: int| 0 <= i < anti_throttle_flags_spec().len() && i != 1 ==> !arg_sets_flag(
            #[trigger] anti_throttle_flags_spec()[i],
            anti_throttle_flags_spec()[1],
        ),
{
    reveal_strlit("--new-window");
    reveal_strlit("--no-first-run");
    reveal_strlit("--no-default-browser-check");
    reveal_strlit("--disable-default-apps");
    reveal_strlit("--disable-session-crashed-bubble");
    reveal_strlit("--disable-backgrounding-occluded-windows");
    reveal_strlit("--disable-renderer-backgrounding");
    reveal_strlit("--disable-background-timer-throttling");
    reveal_strlit("--noerrdialogs");
    reveal_strlit("--window-size=980,860");
    reveal_with_fuel(first_eq_from, 45);
    let f = anti_throttle_flags_spec();
    lemma_differs_before_key(f[0], f[1], 3);
    lemma_differs_before_key(f[2], f[1], 5);
    lemma_differs_before_key(f[3], f[1], 2);
    lemma_differs_before_key(f[4], f[1], 2);
    lemma_differs_before_key(f[5], f[1], 2);
    lemma_differs_before_key(f[6], f[1], 2);
    lemma_differs_before_key(f[7], f[1], 2);
    lemma_differs_before_key(f[8], f[1], 4);
    lemma_differs_before_key(f[9], f[1], 2);
    assert forall|i: int| 0 <= i < f.len() && i != 1 implies !arg_sets_flag(#[trigger] f[i], f[1]) by {
        if i == 0 {
        } else if i == 1 {
        } else if i == 2 {
        } else if i == 3 {
        } else if i == 4 {
        } else if i == 5 {
        } else if i == 6 {
        } else if i == 7 {
        } else if i == 8 {
        } else if i == 9 {
        }
    }
}

/// No other anti-throttle flag sets `--no-default-browser-check`.
proof fn lemma_anti_throttle_sets_only_itself_2()
    ensures
        forall|i: int| 0 <= i < anti_throttle_flags_spec().len() && i != 2 ==> !arg_sets_flag(
            #[trigger] anti_throttle_flags_spec()[i],
            anti_throttle_flags_spec()[2],
        ),
{
    reveal_strlit("--new-window");
    reveal_strlit("--no-first-run");
    reveal_strlit("--no-default-browser-check");
    reveal_strlit("--disable-default-apps");
    reveal_strlit("--disable-session-crashed-bubble");
    reveal_strlit("--disable-backgrounding-occluded-windows");
    reveal_strlit("--disable-renderer-backgrounding");
    reveal_strlit("--disable-background-timer-throttling");
    reveal_strlit("--noerrdialogs");
    reveal_strlit("--window-size=980,860");
    reveal_with_fuel(first_eq_from, 45);
    let f = anti_throttle_flags_spec();
    lemma_differs_before_key(f[0], f[2], 3);
    lemma_differs_before_key(f[1], f[2], 5);
    lemma_differs_before_key(f[3], f[2], 2);
    lemma_differs_before_key(f[4], f[2], 2);
    lemma_differs_before_key(f[5], f[2], 2);
    lemma_differs_before_key(f[6], f[2], 2);
    lemma_differs_before_key(f[7], f[2], 2);
    lemma_differs_before_key(f[8], f[2], 4);
    lemma_differs_before_key(f[9], f[2], 2);
    assert forall|i: int| 0 <= i < f.len() && i != 2 implies !arg_sets_flag(#[trigger] f[i], f[2]) by {
        if i == 0 {
        } else if i == 1 {
        } else if i == 2 {
        } else if i == 3 {
        } else if i == 4 {
        } else if i == 5 {
        } else if i == 6 {
        } else if i == 7 {
        } else if i == 8 {
        } else if i == 9 {
        }
    }
}

/// No other anti-throttle flag sets `--disable-default-apps`.
proof fn lemma_anti_throttle_sets_only_itself_3()
    ensures
        forall|i: int| 0 <= i < anti_throttle_flags_spec().len() && i != 3 ==> !arg_sets_flag(
            #[trigger] anti_throttle_flags_spec()[i],
            anti_throttle_flags_spec()[3],
        ),
{
    reveal_strlit("--new-window");
    reveal_strlit("--no-first-run");
    reveal_strlit("--no-default-browser-check");
    reveal_strlit("--disable-default-apps");
    reveal_strlit("--disable-session-crashed-bubble");
    reveal_strlit("--disable-backgrounding-occluded-windows");
    reveal_strlit("--disable-renderer-backgrounding");
    reveal_strlit("--disable-background-timer-throttling");
    reveal_strlit("--noerrdialogs");
    reveal_strlit("--window-size=980,860");
    reveal_with_fuel(first_eq_from, 45);
    let f = anti_throttle_flags_spec();
    lemma_differs_before_key(f[0], f[3], 2);
    lemma_differs_before_key(f[1], f[3], 2);
    lemma_differs_before_key(f[2], f[3], 2);
    lemma_differs_before_key(f[4], f[3], 10);
    lemma_differs_before_key(f[5], f[3], 10);
    lemma_differs_before_key(f[6], f[3], 10);
    lemma_differs_before_key(f[7], f[3], 10);
    lemma_differs_before_key(f[8], f[3], 2);
    lemma_differs_before_key(f[9], f[3], 2);
    assert forall|i: int| 0 <= i < f.len() && i != 3 implies !arg_sets_flag(#[trigger] f[i], f[3]) by {
        if i == 0 {
        } else if i == 1 {
        } else if i == 2 {
        } else if i == 3 {
        } else if i == 4 {
        } else if i == 5 {
        } else if i == 6 {
        } else if i == 7 {
        } else if i == 8 {
        } else if i == 9 {
        }
    }
}

/// No other anti-throttle flag sets `--disable-session-crashed-bubble`.
proof fn lemma_anti_throttle_sets_only_itself_4()
    ensures
        forall|i: int| 0 <= i < anti_throttle_flags_spec().len() && i != 4 ==> !arg_sets_flag(
            #[trigger] anti_throttle_flags_spec()[i],
            anti_throttle_flags_spec()[4],
        ),
{
    reveal_strlit("--new-window");
    reveal_strlit("--no-first-run");
    reveal_strlit("--no-default-browser-check");
    reveal_strlit("--disable-default-apps");
    reveal_strlit("--disable-session-crashed-bubble");
    reveal_strlit("--disable-backgrounding-occluded-windows");
    reveal_strlit("--disable-renderer-backgrounding");
    reveal_strlit("--disable-background-timer-throttling");
    reveal_strlit("--noerrdialogs");
    reveal_strlit("--window-size=980,860");
    reveal_with_fuel(first_eq_from, 45);
    let f = anti_throttle_flags_spec();
    lemma_differs_before_key(f[0], f[4], 2);
    lemma_differs_before_key(f[1], f[4], 2);
    lemma_differs_before_key(f[2], f[4], 2);
    lemma_differs_before_key(f[3], f[4], 10);
    lemma_differs_before_key(f[5], f[4], 10);
    lemma_differs_before_key(f[6], f[4], 10);
    lemma_differs_before_key(f[7], f[4], 10);
    lemma_differs_before_key(f[8], f[4], 2);
    lemma_differs_before_key(f[9], f[4], 2);
    assert forall|i: int| 0 <= i < f.len() && i != 4 implies !arg_sets_flag(#[trigger] f[i], f[4]) by {
        if i == 0 {
        } else if i == 1 {
        } else if i == 2 {
        } else if i == 3 {
        } else if i == 4 {
        } else if i == 5 {
        } else if i == 6 {
        } else if i == 7 {
        } else if i == 8 {
        } else if i == 9 {
        }
    }
}

/// No other anti-throttle flag sets `--disable-backgrounding-occluded-windows`.
proof fn lemma_anti_throttle_sets_only_itself_5()
    ensures
        forall|i: int| 0 <= i < anti_throttle_flags_spec().len() && i != 5 ==> !arg_sets_flag(
            #[trigger] anti_throttle_flags_spec()[i],
            anti_throttle_flags_spec()[5],
        ),
{
    reveal_strlit("--new-window");
    reveal_strlit("--no-first-run");
    reveal_strlit("--no-default-browser-check");
    reveal_strlit("--disable-default-apps");
    reveal_strlit("--disable-session-crashed-bubble");
    reveal_strlit("--disable-backgrounding-occluded-windows");
    reveal_strlit("--disable-renderer-backgrounding");
    reveal_strlit("--disable-background-timer-throttling");
    reveal_strlit("--noerrdialogs");
    reveal_strlit("--window-size=980,860");
    reveal_with_fuel(first_eq_from, 45);
    let f = anti_throttle_flags_spec();
    lemma_differs_before_key(f[0], f[5], 2);
    lemma_differs_before_key(f[1], f[5], 2);
    lemma_differs_before_key(f[2], f[5], 2);
    lemma_differs_before_key(f[3], f[5], 10);
    lemma_differs_before_key(f[4], f[5], 10);
    lemma_differs_before_key(f[6], f[5], 10);
    lemma_differs_before_key(f[7], f[5], 20);
    lemma_differs_before_key(f[8], f[5], 2);
    lemma_differs_before_key(f[9], f[5], 2);
    assert forall|i: int| 0 <= i < f.len() && i != 5 implies !arg_sets_flag(#[trigger] f[i], f[5]) by {
        if i == 0 {
        } else if i == 1 {
        } else if i == 2 {
        } else if i == 3 {
        } else if i == 4 {
        } else if i == 5 {
        } else if i == 6 {
        } else if i == 7 {
        } else if i == 8 {
        } else if i == 9 {
        }
    }
}

/// No other anti-throttle flag sets `--disable-renderer-backgrounding`.
proof fn lemma_anti_throttle_sets_only_itself_6()
    ensures
        forall|i: int| 0 <= i < anti_throttle_flags_spec().len() && i != 6 ==> !arg_sets_flag(
            #[trigger] anti_throttle_flags_spec()[i],
            anti_throttle_flags_spec()[6],
        ),
{
    reveal_strlit("--new-window");
    reveal_strlit("--no-first-run");
    reveal_strlit("--no-default-browser-check");
    reveal_strlit("--disable-default-apps");
    reveal_strlit("--disable-session-crashed-bubble");
    reveal_strlit("--disable-backgrounding-occluded-windows");
    reveal_strlit("--disable-renderer-backgrounding");
    reveal_strlit("--disable-background-timer-throttling");
    reveal_strlit("--noerrdialogs");
    reveal_strlit("--window-size=980,860");
    reveal_with_fuel(first_eq_from, 45);
    let f = anti_throttle_flags_spec();
    lemma_differs_before_key(f[0], f[6], 2);
    lemma_differs_before_key(f[1], f[6], 2);
    lemma_differs_before_key(f[2], f[6], 2);
    lemma_differs_before_key(f[3], f[6], 10);
    lemma_differs_before_key(f[4], f[6], 10);
    lemma_differs_before_key(f[5], f[6], 10);
    lemma_differs_before_key(f[7], f[6], 10);
    lemma_differs_before_key(f[8], f[6], 2);
    lemma_differs_before_key(f[9], f[6], 2);
    assert forall|i: int| 0 <= i < f.len() && i != 6 implies !arg_sets_flag(#[trigger] f[i], f[6]) by {
        if i == 0 {
        } else if i == 1 {
        } else if i == 2 {
        } else if i == 3 {
        } else if i == 4 {
        } else if i == 5 {
        } else if i == 6 {
        } else if i == 7 {
        } else if i == 8 {
        } else if i == 9 {
        }
    }
}

/// No other anti-throttle flag sets `--disable-background-timer-throttling`.
proof fn lemma_anti_throttle_sets_only_itself_7()
    ensures
        forall|i: int| 0 <= i < anti_throttle_flags_spec().len() && i != 7 ==> !arg_sets_flag(
            #[trigger] anti_throttle_flags_spec()[i],
            anti_throttle_flags_spec()[7],
        ),
{
    reveal_strlit("--new-window");
    reveal_strlit("--no-first-run");
    reveal_strlit("--no-default-browser-check");
    reveal_strlit("--disable-default-apps");
    reveal_strlit("--disable-session-crashed-bubble");
    reveal_strlit("--disable-backgrounding-occluded-windows");
    reveal_strlit("--disable-renderer-backgrounding");
    reveal_strlit("--disable-background-timer-throttling");
    reveal_strlit("--noerrdialogs");
    reveal_strlit("--window-size=980,860");
    reveal_with_fuel(first_eq_from, 45);
    let f = anti_throttle_flags_spec();
    lemma_differs_before_key(f[0], f[7], 2);
    lemma_differs_before_key(f[1], f[7], 2);
    lemma_differs_before_key(f[2], f[7], 2);
    lemma_differs_before_key(f[3], f[7], 10);
    lemma_differs_before_key(f[4], f[7], 10);
    lemma_differs_before_key(f[5], f[7], 20);
    lemma_differs_before_key(f[6], f[7], 10);
    lemma_differs_before_key(f[8], f[7], 2);
    lemma_differs_before_key(f[9], f[7], 2);
    assert forall|i: int| 0 <= i < f.len() && i != 7 implies !arg_sets_flag(#[trigger] f[i], f[7]) by {
        if i == 0 {
        } else if i == 1 {
        } else if i == 2 {
        } else if i == 3 {
        } else if i == 4 {
        } else if i == 5 {
        } else if i == 6 {
        } else if i == 7 {
        } else if i == 8 {
        } else if i == 9 {
        }
    }
}

/// No other anti-throttle flag sets `--noerrdialogs`.
proof fn lemma_anti_throttle_sets_only_itself_8()
    ensures
        forall|i: int| 0 <= i < anti_throttle_flags_spec().len() && i != 8 ==> !arg_sets_flag(
            #[trigger] anti_throttle_flags_spec()[i],
            anti_throttle_flags_spec()[8],
        ),
{
    reveal_strlit("--new-window");
    reveal_strlit("--no-first-run");
    reveal_strlit("--no-default-browser-check");
    reveal_strlit("--disable-default-apps");
    reveal_strlit("--disable-session-crashed-bubble");
    reveal_strlit("--disable-backgrounding-occluded-windows");
    reveal_strlit("--disable-renderer-backgrounding");
    reveal_strlit("--disable-background-timer-throttling");
    reveal_strlit("--noerrdialogs");
    reveal_strlit("--window-size=980,860");
    reveal_with_fuel(first_eq_from, 45);
    let f = anti_throttle_flags_spec();
    lemma_differs_before_key(f[0], f[8], 3);
    lemma_differs_before_key(f[1], f[8], 4);
    lemma_differs_before_key(f[2], f[8], 4);
    lemma_differs_before_key(f[3], f[8], 2);
    lemma_differs_before_key(f[4], f[8], 2);
    lemma_differs_before_key(f[5], f[8], 2);
    lemma_differs_before_key(f[6], f[8], 2);
    lemma_differs_before_key(f[7], f[8], 2);
    lemma_differs_before_key(f[9], f[8], 2);
    assert forall|i: int| 0 <= i < f.len() && i != 8 implies !arg_sets_flag(#[trigger] f[i], f[8]) by {
        if i == 0 {
        } else if i == 1 {
        } else if i == 2 {
        } else if i == 3 {
        } else if i == 4 {
        } else if i == 5 {
        } else if i == 6 {
        } else if i == 7 {
        } else if i == 8 {
        } else if i == 9 {
        }
    }
}

/// No other anti-throttle flag sets `--window-size=980,860`.
proof fn lemma_anti_throttle_sets_only_itself_9()
    ensures
        forall|i: int| 0 <= i < anti_throttle_flags_spec().len() && i != 9 ==> !arg_sets_flag(
            #[trigger] anti_throttle_flags_spec()[i],
            anti_throttle_flags_spec()[9],
        ),
{
    reveal_strlit("--new-window");
    reveal_strlit("--no-first-run");
    reveal_strlit("--no-default-browser-check");
    reveal_strlit("--disable-default-apps");
    reveal_strlit("--disable-session-crashed-bubble");
    reveal_strlit("--disable-backgrounding-occluded-windows");
    reveal_strlit("--disable-renderer-backgrounding");
    reveal_strlit("--disable-background-timer-throttling");
    reveal_strlit("--noerrdialogs");
    reveal_strlit("--window-size=980,860");
    reveal_with_fuel(first_eq_from, 45);
    let f = anti_throttle_flags_spec();
    lemma_differs_before_key(f[0], f[9], 2);
    lemma_differs_before_key(f[1], f[9], 2);
    lemma_differs_before_key(f[2], f[9], 2);
    lemma_differs_before_key(f[3], f[9], 2);
    lemma_differs_before_key(f[4], f[9], 2);
    lemma_differs_before_key(f[5], f[9], 2);
    lemma_differs_before_key(f[6], f[9], 2);
    lemma_differs_before_key(f[7], f[9], 2);
    lemma_differs_before_key(f[8], f[9], 2);
    assert forall|i: int| 0 <= i < f.len() && i != 9 implies !arg_sets_flag(#[trigger] f[i], f[9]) by {
        if i == 0 {
        } else if i == 1 {
        } else if i == 2 {
        } else if i == 3 {
        } else if i == 4 {
        } else if i == 5 {
        } else if i == 6 {
        } else if i == 7 {
        } else if i == 8 {
        } else if i == 9 {
        }
    }
}

/// No anti-throttle flag sets another one.
pub proof fn lemma_anti_throttle_flags_independent()
    ensures
        flags_independent(anti_throttle_flags_spec()),
{
    lemma_anti_throttle_sets_only_itself_0();
    lemma_anti_throttle_sets_only_itself_1();
    lemma_anti_throttle_sets_only_itself_2();
    lemma_anti_throttle_sets_only_itself_3();
    lemma_anti_throttle_sets_only_itself_4();
    lemma_anti_throttle_sets_only_itself_5();
    lemma_anti_throttle_sets_only_itself_6();
    lemma_anti_throttle_sets_only_itself_7();
    lemma_anti_throttle_sets_only_itself_8();
    lemma_anti_throttle_sets_only_itself_9();
    let f = anti_throttle_flags_spec();
    assert forall|i: int, j: int| 0 <= i < f.len() && 0 <= j < f.len() && i != j implies !arg_sets_flag(
        #[trigger] f[i],
        #[trigger] f[j],
    ) by {
        if j == 0 {
        } else if j == 1 {
        } else if j == 2 {
        } else if j == 3 {
        } else if j == 4 {
        } else if j == 5 {
        } else if j == 6 {
        } else if j == 7 {
        } else if j == 8 {
        } else if j == 9 {
        }
    }
}

/// No flag of `reqs` sets another flag of `reqs`.
pub open spec fn flags_independent(reqs: Seq<Seq<char>>) -> bool {
    forall|i: int, j: int|
        0 <= i < reqs.len() && 0 <= j < reqs.len() && i != j ==> !arg_sets_flag(
            #[trigger] reqs[i],
            #[trigger] reqs[j],
        )
}

/// The flags that `args` does not set yet.
pub open spec fn not_set_in(args: Seq<Seq<char>>) -> spec_fn(Seq<char>) -> bool {
    |f: Seq<char>| !flag_in(args, f)
}

/// The arguments that start with none of `prefixes`.
pub open spec fn kept_by(prefixes: Seq<Seq<char>>) -> spec_fn(Seq<char>) -> bool {
    |a: Seq<char>| !has_prefix_in(a, prefixes)
}

proof fn lemma_filter_within<A>(s: Seq<A>, pred: spec_fn(A) -> bool)
    ensures
        forall|i: int| 0 <= i < s.filter(pred).len() ==> s.contains(#[trigger] s.filter(pred)[i]),
    decreases s.len(),
{
    reveal(Seq::filter);
    if s.len() > 0 {
        let init = s.drop_last();
        lemma_filter_within(init, pred);
        let sub = init.filter(pred);
        assert forall|i: int| 0 <= i < s.filter(pred).len() implies s.contains(#[trigger] s.filter(pred)[i]) by {
            if i < sub.len() {
                assert(s.filter(pred)[i] == sub[i]);
                let k = choose|k: int| 0 <= k < init.len() && init[k] == sub[i];
                assert(s[k] == init[k]);
            } else {
                assert(s[s.len() - 1] == s.last());
            }
        }
    }
}

proof fn lemma_flag_in_concat(a: Seq<Seq<char>>, t: Seq<Seq<char>>, r: Seq<char>)
    ensures
        flag_in(a + t, r) <==> flag_in(a, r) || flag_in(t, r),
{
    if flag_in(a, r) {
        let i = choose|i: int| 0 <= i < a.len() && arg_sets_flag(#[trigger] a[i], r);
        assert((a + t)[i] == a[i]);
    }
    if flag_in(t, r) {
        let i = choose|i: int| 0 <= i < t.len() && arg_sets_flag(#[trigger] t[i], r);
        assert((a + t)[a.len() + i] == t[i]);
    }
    if flag_in(a + t, r) {
        let i = choose|i: int| 0 <= i < (a + t).len() && arg_sets_flag(#[trigger] (a + t)[i], r);
        if i < a.len() {
            assert((a + t)[i] == a[i]);
        } else {
            assert((a + t)[i] == t[i - a.len()]);
        }
    }
}

/// With flags that do not set one another, merging appends exactly the flags that the
/// arguments did not set, in their order.
pub proof fn lemma_ensured_flags_exact(args: Seq<Seq<char>>, reqs: Seq<Seq<char>>)
    requires
        flags_independent(reqs),
    ensures
        ensured_flags(args, reqs) == args + reqs.filter(not_set_in(args)),
    decreases reqs.len(),
{
    reveal(Seq::filter);
    let p = not_set_in(args);
    if reqs.len() == 0 {
        assert(args + reqs.filter(p) =~= args);
    } else {
        let init = reqs.drop_last();
        let last = reqs.last();
        assert forall|i: int, j: int| 0 <= i < init.len() && 0 <= j < init.len() && i != j implies !arg_sets_flag(
            #[trigger] init[i],
            #[trigger] init[j],
        ) by {
            assert(init[i] == reqs[i] && init[j] == reqs[j]);
        }
        lemma_ensured_flags_exact(args, init);
        let t = init.filter(p);
        lemma_filter_within(init, p);
        lemma_flag_in_concat(args, t, last);
        if flag_in(t, last) {
            let i = choose|i: int| 0 <= i < t.len() && arg_sets_flag(#[trigger] t[i], last);
            assert(init.contains(t[i]));
            let k = choose|k: int| 0 <= k < init.len() && init[k] == t[i];
            assert(reqs[k] == init[k]);
            assert(reqs[reqs.len() - 1] == last);
            assert(!arg_sets_flag(reqs[k], reqs[reqs.len() - 1]));
        }
        assert(reqs.drop_last() == init);
        if !flag_in(args, last) {
            assert((args + t).push(last) =~= args + t.push(last));
        }
    }
}

/// Law (`ensure_sst_launch_flags`): exactly the anti-throttle flags that the caller's
/// arguments do not set are appended, in their constant order.
pub proof fn law_ensure_sst_appends_exactly_missing(args: Seq<Seq<char>>)
    ensures
        ensured_flags(args, anti_throttle_flags_spec()) == args + anti_throttle_flags_spec().filter(
            not_set_in(args),
        ),
{
    lemma_anti_throttle_flags_independent();
    lemma_ensured_flags_exact(args, anti_throttle_flags_spec());
}

/// Stripping prefixed arguments is a filter: the arguments kept stay in their order.
pub proof fn lemma_without_prefixed_is_filter(args: Seq<Seq<char>>, prefixes: Seq<Seq<char>>)
    ensures
        without_prefixed(args, prefixes) == args.filter(kept_by(prefixes)),
    decreases args.len(),
{
    reveal(Seq::filter);
    if args.len() > 0 {
        lemma_without_prefixed_is_filter(args.drop_last(), prefixes);
    }
}

/// Merging features only appends: the caller's features stay first, in their order.
pub proof fn lemma_ensured_features_appends(feats: Seq<Seq<char>>, reqs: Seq<Seq<char>>)
    ensures
        ensured_features(feats, reqs).len() >= feats.len(),
        ensured_features(feats, reqs).subrange(0, feats.len() as int) == feats,
    decreases reqs.len(),
{
    if reqs.len() == 0 {
        assert(feats.subrange(0, feats.len() as int) =~= feats);
    } else {
        lemma_ensured_features_appends(feats, reqs.drop_last());
        let a = ensured_features(feats, reqs.drop_last());
        assert(a.push(reqs.last()).subrange(0, feats.len() as int) =~= a.subrange(0, feats.len() as int));
    }
}

/// Law (`finalize_chrome_launch_config`): the caller's launch arguments that survive come
/// first, in their order (the required flags follow); the caller's disabled features stay
/// first, in their order; the extra arguments that survive keep their order.
pub proof fn law_finalize_keeps_order(launch: Seq<Seq<char>>, feats: Seq<Seq<char>>, extra: Seq<Seq<char>>)
    ensures
        finalized_launch_args(launch).len() >= launch.filter(kept_by(forbidden_flags_spec())).len(),
        finalized_launch_args(launch).subrange(0, launch.filter(kept_by(forbidden_flags_spec())).len() as int)
            == launch.filter(kept_by(forbidden_flags_spec())),
        finalized_features(feats).subrange(0, feats.len() as int) == feats,
        without_prefixed(extra, forbidden_flags_spec()) == extra.filter(kept_by(forbidden_flags_spec())),
{
    let fb = forbidden_flags_spec();
    let p = kept_by(fb);
    let a1 = ensured_flags(launch, anti_throttle_flags_spec());
    let m = ensured_flags(a1, disk_bloat_flags_spec());
    lemma_ensured_flags_appends(launch, anti_throttle_flags_spec());
    lemma_ensured_flags_appends(a1, disk_bloat_flags_spec());
    let tail = m.subrange(launch.len() as int, m.len() as int);
    assert(m.subrange(0, launch.len() as int) =~= a1.subrange(0, launch.len() as int));
    assert(m =~= launch + tail);
    lemma_without_prefixed_is_filter(m, fb);
    lemma_without_prefixed_is_filter(extra, fb);
    Seq::filter_distributes_over_add(launch, tail, p);
    let lf = launch.filter(p);
    assert((lf + tail.filter(p)).subrange(0, lf.len() as int) =~= lf);
    let f1 = ensured_features(feats, disabled_features_spec());
    lemma_ensured_features_appends(feats, disabled_features_spec());
    lemma_ensured_features_appends(f1, disk_bloat_features_spec());
    let ff = finalized_features(feats);
    assert(ff.subrange(0, feats.len() as int) =~= ff.subrange(0, f1.len() as int).subrange(0, feats.len() as int));
}

/// Law (`launch_args_for_url`): the worker command line is the finalized launch flags, then
/// the configured extra arguments, each list with forbidden and launch-time-only arguments
/// removed and in its own order, then the profile directory, the disabled features and the
/// URL.  So every extra argument that is neither forbidden nor launch-time-only is carried
/// into the command line, after the launch flags.
pub proof fn law_launch_args_carry_extra_args(
    c_launch: Seq<Seq<char>>,
    c_features: Seq<Seq<char>>,
    c_extra: Seq<Seq<char>>,
    profile_dir: Seq<char>,
    worker_url: Seq<char>,
)
    ensures
        ({
            let r = launch_args_spec(c_launch, c_features, c_extra, profile_dir, worker_url);
            let flags = finalized_launch_args(c_launch).filter(kept_by(launch_time_only_spec()));
            let extra = c_extra.filter(kept_by(forbidden_flags_spec())).filter(kept_by(launch_time_only_spec()));
            &&& r.len() == flags.len() + extra.len() + 3
            &&& r.subrange(0, flags.len() as int) == flags
            &&& r.subrange(flags.len() as int, (flags.len() + extra.len()) as int) == extra
            &&& r[r.len() - 3] == "--user-data-dir="@ + profile_dir
            &&& r[r.len() - 1] == worker_url
            &&& forall|k: int|
                0 <= k < c_extra.len() && !has_prefix_in(c_extra[k], forbidden_flags_spec())
                    && !has_prefix_in(c_extra[k], launch_time_only_spec()) ==> r.contains(
                    #[trigger] c_extra[k],
                )
        }),
{
    reveal(Seq::filter);
    let lt = launch_time_only_spec();
    let fb = forbidden_flags_spec();
    let fin = finalized_launch_args(c_launch);
    let we = without_prefixed(c_extra, fb);
    lemma_without_prefixed_is_filter(c_extra, fb);
    lemma_without_prefixed_is_filter(fin + we, lt);
    Seq::filter_distributes_over_add(fin, we, kept_by(lt));
    let flags = fin.filter(kept_by(lt));
    let extra = we.filter(kept_by(lt));
    let body = flags + extra;
    let r = launch_args_spec(c_launch, c_features, c_extra, profile_dir, worker_url);
    assert(r.subrange(0, body.len() as int) =~= body);
    assert(body.subrange(0, flags.len() as int) =~= flags);
    assert(body.subrange(flags.len() as int, body.len() as int) =~= extra);
    assert(r.subrange(0, flags.len() as int) =~= flags);
    assert(r.subrange(flags.len() as int, (flags.len() + extra.len()) as int) =~= extra);
    assert forall|k: int|
        0 <= k < c_extra.len() && !has_prefix_in(c_extra[k], fb) && !has_prefix_in(c_extra[k], lt)
            implies r.contains(#[trigger] c_extra[k]) by {
        let a = c_extra[k];
        c_extra.lemma_filter_contains(kept_by(fb), k);
        let s1 = c_extra.filter(kept_by(fb));
        let j = choose|j: int| 0 <= j < s1.len() && s1[j] == a;
        s1.lemma_filter_contains(kept_by(lt), j);
        let m = choose|m: int| 0 <= m < extra.len() && extra[m] == a;
        assert(r[flags.len() + m] == body[flags.len() + m]);
        assert(body[flags.len() + m] == extra[m]);
    }
}

} // verus!
