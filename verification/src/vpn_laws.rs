use vstd::prelude::*;
use crate::paths::{path_extension, stem_or_empty};
use crate::vpn_manager::{
    awg_quick_line, config_files, is_valid_config, PrivilegeManager, TunnelAction,
};

verus! {

/// `marker` occurs somewhere in `text`, at any position.
pub open spec fn occurs_in(text: Seq<char>, marker: Seq<char>) -> bool {
    exists|at: int|
        0 <= at && at + marker.len() <= text.len() && #[trigger] text.subrange(at, at + marker.len())
            == marker
}

/// A configuration is accepted exactly when each of `[Interface]`, `[Peer]`,
/// `PrivateKey`, `Address`, `PublicKey` and `Endpoint` occurs somewhere in
/// its whole text.
pub proof fn law_config_valid_iff_all_markers(c: Seq<char>)
    ensures
        is_valid_config(c) <==> {
            &&& occurs_in(c, "[Interface]"@)
            &&& occurs_in(c, "[Peer]"@)
            &&& occurs_in(c, "PrivateKey"@)
            &&& occurs_in(c, "Address"@)
            &&& occurs_in(c, "PublicKey"@)
            &&& occurs_in(c, "Endpoint"@)
        },
{
    let m = crate::vpn_manager::required_markers();
    assert(m[0] == "[Interface]"@ && m[1] == "[Peer]"@ && m[2] == "PrivateKey"@);
    assert(m[3] == "Address"@ && m[4] == "PublicKey"@ && m[5] == "Endpoint"@);
    if is_valid_config(c) {
        assert(crate::text::contains_text(c, m[0]));
        assert(crate::text::contains_text(c, m[1]));
        assert(crate::text::contains_text(c, m[2]));
        assert(crate::text::contains_text(c, m[3]));
        assert(crate::text::contains_text(c, m[4]));
        assert(crate::text::contains_text(c, m[5]));
    }
    if occurs_in(c, m[0]) && occurs_in(c, m[1]) && occurs_in(c, m[2]) && occurs_in(c, m[3])
        && occurs_in(c, m[4]) && occurs_in(c, m[5]) {
        assert forall|i: int| 0 <= i < m.len() implies crate::text::contains_text(
            c,
            #[trigger] m[i],
        ) by {
            let k = m[i];
            assert(occurs_in(c, k));
            let at = choose|at: int|
                0 <= at && at + k.len() <= c.len() && #[trigger] c.subrange(at, at + k.len()) == k;
            assert(crate::text::occurs_at(c, k, at));
        }
    }
}

/// The `awg-quick` command line: the privilege tool first (`sudo` or
/// `doas`), then `awg-quick`, then `up` for bringing the tunnel up and
/// `down` for taking it down, whatever the tool, and the configuration's
/// path last.
pub proof fn law_awg_quick_line(privilege: PrivilegeManager, action: TunnelAction, path: Seq<char>)
    ensures
        ({
            let l = awg_quick_line(privilege, action, path);
            &&& l.len() >= 4
            &&& l[0] == (match privilege {
                PrivilegeManager::Sudo => "sudo"@,
                PrivilegeManager::Doas => "doas"@,
            })
            &&& l[l.len() - 3] == "awg-quick"@
            &&& l[l.len() - 2] == (match action {
                TunnelAction::Up => "up"@,
                TunnelAction::Down => "down"@,
            })
            &&& l[l.len() - 1] == path
        }),
{
}

/// The stored configurations are exactly the paths whose extension is
/// `conf`, in listing order, each named by its file stem: every such path is
/// listed, and there are as many entries as such paths.
pub proof fn law_config_files(paths: Seq<Seq<char>>)
    ensures
        config_files(paths) == paths.filter(|p: Seq<char>| path_extension(p) == Some("conf"@)).map_values(
            |p: Seq<char>| (stem_or_empty(p), p),
        ),
        config_files(paths).len() == paths.filter(
            |p: Seq<char>| path_extension(p) == Some("conf"@),
        ).len(),
        forall|k: int|
            0 <= k < paths.len() && path_extension(#[trigger] paths[k]) == Some("conf"@)
                ==> config_files(paths).contains((stem_or_empty(paths[k]), paths[k])),
    decreases paths.len(),
{
    let pred = |p: Seq<char>| path_extension(p) == Some("conf"@);
    let f = |p: Seq<char>| (stem_or_empty(p), p);
    reveal_with_fuel(Seq::filter, 1);
    if paths.len() > 0 {
        law_config_files(paths.drop_last());
        let rest = paths.drop_last().filter(pred);
        if pred(paths.last()) {
            assert(rest.push(paths.last()).map_values(f) =~= rest.map_values(f).push(f(paths.last())));
        }
    } else {
        assert(paths.filter(pred).map_values(f) =~= Seq::<(Seq<char>, Seq<char>)>::empty());
    }
    let out = config_files(paths);
    let filtered = paths.filter(pred);
    assert(out == filtered.map_values(f));
    assert forall|k: int| 0 <= k < paths.len() && path_extension(#[trigger] paths[k]) == Some("conf"@)
        implies out.contains((stem_or_empty(paths[k]), paths[k])) by {
        paths.lemma_filter_contains(pred, k);
        let j = choose|j: int| 0 <= j < filtered.len() && filtered[j] == paths[k];
        assert(out[j] == f(filtered[j]));
    }
}

} // verus!
