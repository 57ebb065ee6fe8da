use mihomo_proxy::mirror::{
    candidate_label, fastest_candidate, github_candidates, probe_url, select_fastest,
    speedtest_url, MirrorError, ProxyCandidate,
};

fn cand(prefix: &str) -> ProxyCandidate {
    ProxyCandidate { prefix: prefix.to_string(), display_name: candidate_label(prefix) }
}

#[test]
fn fastest_reachable_mirror_wins() {
    let c = vec![cand(""), cand("mirrorA"), cand("mirrorB")];
    let r = select_fastest(&c, &vec![Some(200), Some(50), None]).unwrap();
    assert_eq!(r.prefix, "mirrorA");
    assert_eq!(r.display_name, "mirrorA");
}

#[test]
fn all_unreachable_is_an_error() {
    let c = vec![cand(""), cand("mirrorA"), cand("mirrorB")];
    assert_eq!(select_fastest(&c, &vec![None, None, None]).err(), Some(MirrorError::NoMirrorAvailable));
}

#[test]
fn tie_goes_to_earlier_candidate() {
    let c = vec![cand(""), cand("mirrorA"), cand("mirrorB")];
    let r = select_fastest(&c, &vec![None, Some(80), Some(80)]).unwrap();
    assert_eq!(r.prefix, "mirrorA");
    assert_eq!(fastest_candidate(&vec![Some(9), Some(3), Some(3), Some(4)]), Ok(1));
}

#[test]
fn direct_path_can_win() {
    let c = vec![cand(""), cand("mirrorA")];
    let r = select_fastest(&c, &vec![Some(10), Some(50)]).unwrap();
    assert_eq!(r.prefix, "");
    assert_eq!(r.display_name, "Direct connection");
}

#[test]
fn github_candidates_start_with_direct() {
    let c = github_candidates();
    let prefixes: Vec<&str> = c.iter().map(|c| c.prefix.as_str()).collect();
    assert_eq!(
        prefixes,
        vec!["", "https://github.akams.cn/", "https://github.moeyy.xyz/", "https://tvv.tw/"]
    );
    assert_eq!(c[0].display_name, "Direct connection");
    assert_eq!(c[3].display_name, "https://tvv.tw/");
}

#[test]
fn probe_url_prepends_prefix() {
    assert_eq!(
        probe_url("https://tvv.tw/", speedtest_url()),
        "https://tvv.tw/https://raw.githubusercontent.com/microsoft/vscode/main/LICENSE.txt"
    );
    assert_eq!(probe_url("", "x"), "x");
}

#[test]
fn no_candidates_is_an_error() {
    assert_eq!(fastest_candidate(&vec![]), Err(MirrorError::NoMirrorAvailable));
}
