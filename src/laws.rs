use vstd::prelude::*;
use crate::catalog::{
    catalog_spec, condition_holds, skip_rules_spec, skipped, EDITORCONFIG_NAME, JSCONFIG_NAME,
    LICENSE_NAME, VITE_CONFIG_NAME,
};
use crate::render::render_all;
use crate::settings::{author_of, project_name_of, SettingsView};

verus! {

/// The file names of a set of outputs.
pub open spec fn paths_of(outs: Seq<(Seq<char>, Seq<char>)>) -> Seq<Seq<char>> {
    outs.map_values(|o: (Seq<char>, Seq<char>)| o.0)
}

/// The names of the templates of `cat` that no skip rule omits, in order.
pub open spec fn kept(s: SettingsView, cat: Seq<(Seq<char>, Seq<char>)>) -> Seq<Seq<char>>
    decreases cat.len(),
{
    if cat.len() == 0 {
        seq![]
    } else if skipped(s, cat[0].0) {
        kept(s, cat.skip(1))
    } else {
        seq![cat[0].0] + kept(s, cat.skip(1))
    }
}

/// A rendered catalog has one output for each template that is kept, in order.
pub proof fn lemma_render_paths(s: SettingsView, cat: Seq<(Seq<char>, Seq<char>)>)
    requires
        render_all(s, cat) is Ok,
    ensures
        paths_of(render_all(s, cat)->Ok_0) == kept(s, cat),
    decreases cat.len(),
{
    if cat.len() > 0 {
        lemma_render_paths(s, cat.skip(1));
        if !skipped(s, cat[0].0) {
            let rest = render_all(s, cat.skip(1))->Ok_0;
            let c = render_all(s, cat)->Ok_0[0].1;
            assert(render_all(s, cat)->Ok_0 == seq![(cat[0].0, c)] + rest);
            assert(paths_of(seq![(cat[0].0, c)] + rest) =~= seq![cat[0].0] + paths_of(rest));
        }
    }
}

/// A name is kept exactly when some template of `cat` has it and no skip rule omits it.
pub proof fn lemma_kept_contains(s: SettingsView, cat: Seq<(Seq<char>, Seq<char>)>, n: Seq<char>)
    ensures
        kept(s, cat).contains(n) <==> (!skipped(s, n) && exists|i: int|
            0 <= i < cat.len() && (#[trigger] cat[i]).0 == n),
    decreases cat.len(),
{
    if cat.len() > 0 {
        let rest = cat.skip(1);
        lemma_kept_contains(s, rest, n);
        if exists|i: int| 0 <= i < rest.len() && (#[trigger] rest[i]).0 == n {
            let i = choose|i: int| 0 <= i < rest.len() && (#[trigger] rest[i]).0 == n;
            assert(cat[i + 1].0 == n);
        }
        if exists|i: int| 0 <= i < cat.len() && (#[trigger] cat[i]).0 == n {
            let i = choose|i: int| 0 <= i < cat.len() && (#[trigger] cat[i]).0 == n;
            if i > 0 {
                assert(rest[i - 1].0 == n);
            }
        }
        if !skipped(s, cat[0].0) {
            let k = seq![cat[0].0] + kept(s, rest);
            assert(k[0] == cat[0].0);
            if kept(s, rest).contains(n) {
                let j = choose|j: int| 0 <= j < kept(s, rest).len() && kept(s, rest)[j] == n;
                assert(k[j + 1] == n);
            }
            if k.contains(n) {
                let j = choose|j: int| 0 <= j < k.len() && k[j] == n;
                if j > 0 {
                    assert(kept(s, rest)[j - 1] == n);
                }
            }
        }
    }
}

/// Omitting the license depends on privacy alone; omitting the Vite config depends on
/// the Vue add-on alone.
pub proof fn lemma_skip_rules(s: SettingsView)
    ensures
        skipped(s, LICENSE_NAME@) <==> s.is_private,
        skipped(s, VITE_CONFIG_NAME@) <==> !s.with_vue,
{
    reveal_strlit("LICENSE");
    reveal_strlit("vite.config.js");
    let rules = skip_rules_spec();
    assert(LICENSE_NAME@.len() != VITE_CONFIG_NAME@.len());
    if s.is_private {
        assert(rules[0].1 == LICENSE_NAME@ && condition_holds(rules[0].0, s));
    }
    if !s.with_vue {
        assert(rules[1].1 == VITE_CONFIG_NAME@ && condition_holds(rules[1].0, s));
    }
}

/// A private project's output holds no license file; a public project's output holds
/// one.
pub proof fn lemma_license_only_when_public(s: SettingsView)
    requires
        render_all(s, catalog_spec()) is Ok,
    ensures
        paths_of(render_all(s, catalog_spec())->Ok_0).contains(LICENSE_NAME@) <==> !s.is_private,
{
    let cat = catalog_spec();
    lemma_render_paths(s, cat);
    lemma_kept_contains(s, cat, LICENSE_NAME@);
    lemma_skip_rules(s);
    assert(cat[4].0 == LICENSE_NAME@);
}

/// Without the Vue add-on the output holds no Vite config; with it, the output holds
/// one.
pub proof fn lemma_vite_config_only_with_vue(s: SettingsView)
    requires
        render_all(s, catalog_spec()) is Ok,
    ensures
        paths_of(render_all(s, catalog_spec())->Ok_0).contains(VITE_CONFIG_NAME@) <==> s.with_vue,
{
    let cat = catalog_spec();
    lemma_render_paths(s, cat);
    lemma_kept_contains(s, cat, VITE_CONFIG_NAME@);
    lemma_skip_rules(s);
    assert(cat[6].0 == VITE_CONFIG_NAME@);
}

/// Rendering the same settings against the same catalog twice gives the same outcome,
/// output for output.
pub proof fn lemma_render_repeatable(
    s1: SettingsView,
    s2: SettingsView,
    cat: Seq<(Seq<char>, Seq<char>)>,
)
    requires
        s1 == s2,
    ensures
        render_all(s1, cat) == render_all(s2, cat),
{
}

/// An explicit author is taken whatever the environment holds.
pub proof fn lemma_explicit_author_wins(a: Seq<char>, env: Option<Seq<char>>)
    ensures
        author_of(Some(a), env) == a,
{
}

/// Without a given project name the working directory's name is used, and no
/// directory is created.
pub proof fn lemma_name_falls_back(basename: Seq<char>)
    requires
        basename.len() > 0,
    ensures
        project_name_of(None, Some(basename)) == Some((basename, false)),
{
}

/// No two templates of `cat` share a name.
pub open spec fn names_distinct(cat: Seq<(Seq<char>, Seq<char>)>) -> bool {
    forall|i: int, j: int| 0 <= i < j < cat.len() ==> (#[trigger] cat[i]).0 != (#[trigger] cat[j]).0
}

/// The fixed catalog names each template once.
pub proof fn lemma_catalog_names_distinct()
    ensures
        names_distinct(catalog_spec()),
{
    reveal_strlit(".npmrc");
    reveal_strlit(".editorconfig");
    reveal_strlit(".gitignore");
    reveal_strlit("jsconfig.json");
    reveal_strlit("LICENSE");
    reveal_strlit("package.json");
    reveal_strlit("vite.config.js");
    assert(EDITORCONFIG_NAME@[0] != JSCONFIG_NAME@[0]);
    let cat = catalog_spec();
    assert forall|i: int, j: int| 0 <= i < j < cat.len() implies (#[trigger] cat[i]).0
        != (#[trigger] cat[j]).0 by {
        if cat[i].0.len() == cat[j].0.len() {
            assert(cat[i].0[0] != cat[j].0[0]);
        }
    }
}

/// Where the templates' names are distinct, so are the kept names.
pub proof fn lemma_kept_distinct(s: SettingsView, cat: Seq<(Seq<char>, Seq<char>)>)
    requires
        names_distinct(cat),
    ensures
        kept(s, cat).no_duplicates(),
    decreases cat.len(),
{
    if cat.len() > 0 {
        let rest = cat.skip(1);
        assert(names_distinct(rest)) by {
            assert forall|i: int, j: int| 0 <= i < j < rest.len() implies (#[trigger] rest[i]).0
                != (#[trigger] rest[j]).0 by {
                assert(cat[i + 1].0 != cat[j + 1].0);
            }
        }
        lemma_kept_distinct(s, rest);
        if !skipped(s, cat[0].0) {
            lemma_kept_contains(s, rest, cat[0].0);
            if exists|i: int| 0 <= i < rest.len() && (#[trigger] rest[i]).0 == cat[0].0 {
                let i = choose|i: int| 0 <= i < rest.len() && (#[trigger] rest[i]).0 == cat[0].0;
                assert(cat[i + 1].0 == cat[0].0);
            }
            let k = seq![cat[0].0] + kept(s, rest);
            assert forall|i: int, j: int| 0 <= i < k.len() && 0 <= j < k.len() && i != j implies k[i]
                != k[j] by {
                if i > 0 && j > 0 {
                    assert(k[i] == kept(s, rest)[i - 1] && k[j] == kept(s, rest)[j - 1]);
                } else if i == 0 {
                    assert(kept(s, rest).contains(k[j]));
                } else {
                    assert(kept(s, rest).contains(k[i]));
                }
            }
        }
    }
}

/// Rendering the fixed catalog gives each kept template exactly once: the output
/// names are the kept names, in catalog order, with no name twice.
pub proof fn lemma_each_kept_template_once(s: SettingsView)
    requires
        render_all(s, catalog_spec()) is Ok,
    ensures
        paths_of(render_all(s, catalog_spec())->Ok_0) == kept(s, catalog_spec()),
        paths_of(render_all(s, catalog_spec())->Ok_0).no_duplicates(),
{
    lemma_render_paths(s, catalog_spec());
    lemma_catalog_names_distinct();
    lemma_kept_distinct(s, catalog_spec());
}

} // verus!
