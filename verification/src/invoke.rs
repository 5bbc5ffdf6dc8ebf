//! Translation of a resolved run into the downloader's command line, and of
//! the downloader's termination status into this process's own exit status.
//!
//! The spawning itself happens at the caller's edge; the library builds the
//! exact argument list and maps the reported termination status.
use vstd::prelude::*;
use vstd::string::StringExecFns;
use crate::profile::{profile_path, profile_path_view};
use crate::views_of;

verus! {

/// The configuration-file options of an invocation: for each profile, in the
/// given order (duplicates kept), the option `--config-location` followed by
/// the profile's path.
pub open spec fn config_flags(profile_dir: Seq<char>, profiles: Seq<Seq<char>>) -> Seq<Seq<char>>
    decreases profiles.len(),
{
    if profiles.len() == 0 {
        Seq::empty()
    } else {
        config_flags(profile_dir, profiles.drop_last()) + seq![
            "--config-location"@,
            profile_path_view(profile_dir, profiles.last()),
        ]
    }
}

/// The downloader's full argument list: the configuration-file options for
/// the profiles in their given order, then the extra arguments verbatim.
pub open spec fn invocation_args(
    profile_dir: Seq<char>,
    profiles: Seq<Seq<char>>,
    extra_args: Seq<Seq<char>>,
) -> Seq<Seq<char>> {
    config_flags(profile_dir, profiles) + extra_args
}

/// The configuration-file options take two arguments per profile.
pub proof fn lemma_config_flags_len(profile_dir: Seq<char>, profiles: Seq<Seq<char>>)
    ensures
        config_flags(profile_dir, profiles).len() == 2 * profiles.len(),
    decreases profiles.len(),
{
    if profiles.len() > 0 {
        lemma_config_flags_len(profile_dir, profiles.drop_last());
    }
}

/// Law: in the built invocation each profile stands, in its given position,
/// as the pair `--config-location` followed by its path.
pub proof fn lemma_invocation_profile_at(
    profile_dir: Seq<char>,
    profiles: Seq<Seq<char>>,
    extra_args: Seq<Seq<char>>,
    i: int,
)
    requires
        0 <= i < profiles.len(),
    ensures
        invocation_args(profile_dir, profiles, extra_args)[2 * i] == "--config-location"@,
        invocation_args(profile_dir, profiles, extra_args)[2 * i + 1] == profile_path_view(
            profile_dir,
            profiles[i],
        ),
    decreases profiles.len(),
{
    lemma_config_flags_len(profile_dir, profiles);
    lemma_config_flags_len(profile_dir, profiles.drop_last());
    if i < profiles.len() - 1 {
        lemma_invocation_profile_at(profile_dir, profiles.drop_last(), extra_args, i);
    }
}

/// Law: in the built invocation the extra arguments follow all the profile
/// options, verbatim and in their given order.
pub proof fn lemma_invocation_extra_at(
    profile_dir: Seq<char>,
    profiles: Seq<Seq<char>>,
    extra_args: Seq<Seq<char>>,
    k: int,
)
    requires
        0 <= k < extra_args.len(),
    ensures
        invocation_args(profile_dir, profiles, extra_args)[2 * profiles.len() + k]
            == extra_args[k],
{
    lemma_config_flags_len(profile_dir, profiles);
}

/// Builds the downloader's argument list for a resolved run: one
/// `--config-location <path>` pair per profile, in the given order and with
/// duplicates kept, then the extra arguments verbatim.
pub fn ytdlp_args(profile_dir: &String, profiles: &Vec<String>, extra_args: &Vec<String>) -> (r:
    Vec<String>)
    ensures
        views_of(r@) == invocation_args(profile_dir@, views_of(profiles@), views_of(extra_args@)),
{
    let mut out: Vec<String> = Vec::new();
    let mut i: usize = 0;
    while i < profiles.len()
        invariant
            i <= profiles@.len(),
            views_of(out@) == config_flags(profile_dir@, views_of(profiles@.take(i as int))),
        decreases profiles@.len() - i,
    {
        out.push(String::from_str("--config-location"));
        out.push(profile_path(profile_dir, &profiles[i]));
        proof {
            let vs2 = views_of(profiles@.take(i + 1));
            assert(vs2.drop_last() =~= views_of(profiles@.take(i as int)));
            assert(vs2.last() == profiles@[i as int]@);
            assert(views_of(out@) =~= config_flags(profile_dir@, vs2.drop_last()) + seq![
                "--config-location"@,
                profile_path_view(profile_dir@, vs2.last()),
            ]);
        }
        i = i + 1;
    }
    proof {
        assert(profiles@.take(profiles@.len() as int) =~= profiles@);
    }
    let mut k: usize = 0;
    while k < extra_args.len()
        invariant
            k <= extra_args@.len(),
            views_of(out@) == config_flags(profile_dir@, views_of(profiles@)) + views_of(
                extra_args@.take(k as int),
            ),
        decreases extra_args@.len() - k,
    {
        let ghost prev = out@;
        out.push(extra_args[k].clone());
        proof {
            assert(views_of(out@) =~~= views_of(prev).push(extra_args@[k as int]@));
            assert(views_of(extra_args@.take(k + 1)) =~~= views_of(extra_args@.take(k as int)).push(
                extra_args@[k as int]@,
            ));
            assert(views_of(out@) =~~= config_flags(profile_dir@, views_of(profiles@)) + views_of(
                extra_args@.take(k + 1),
            ));
        }
        k = k + 1;
    }
    proof {
        assert(extra_args@.take(extra_args@.len() as int) =~= extra_args@);
    }
    out
}

/// Maps the downloader's termination status to this process's own exit
/// status: a normal exit passes its code through (reduced to the low byte, as
/// exit statuses are), and an abnormal termination with no code available is
/// the generic failure status.
pub fn exit_code_from_status(code: Option<i32>) -> (r: u8)
    ensures
        code matches Some(c) ==> r == c & 0xff,
        code is None ==> r == 1,
{
    match code {
        Some(c) => {
            proof {
                assert(c & 0xff >= 0 && c & 0xff < 256) by (bit_vector);
            }
            (c & 0xff) as u8
        },
        None => 1,
    }
}

} // verus!
