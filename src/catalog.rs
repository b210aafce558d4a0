use vstd::prelude::*;
use crate::settings::{Settings, SettingsView};

verus! {

pub const NPMRC_NAME: &'static str = ".npmrc";
pub const EDITORCONFIG_NAME: &'static str = ".editorconfig";
pub const GITIGNORE_NAME: &'static str = ".gitignore";
pub const JSCONFIG_NAME: &'static str = "jsconfig.json";
pub const LICENSE_NAME: &'static str = "LICENSE";
pub const PACKAGE_NAME: &'static str = "package.json";
pub const VITE_CONFIG_NAME: &'static str = "vite.config.js";

pub const NPMRC_BODY: &'static str = "registry=https://registry.npmjs.org/\nsave-exact=true\n";

pub const EDITORCONFIG_BODY: &'static str = "root = true\n\n[*]\ncharset = utf-8\nindent_style = space\nindent_size = 2\nend_of_line = lf\ninsert_final_newline = true\ntrim_trailing_whitespace = true\n\n[*.md]\ntrim_trailing_whitespace = false\n";

pub const GITIGNORE_BODY: &'static str = "node_modules/\ndist/\ncoverage/\n*.log\n.env\n.DS_Store\n";

pub const JSCONFIG_BODY: &'static str = "{\n  \"compilerOptions\": {\n    \"target\": \"ES2020\",\n    \"module\": \"ESNext\",\n    \"moduleResolution\": \"node\",\n    \"checkJs\": true,\n    \"baseUrl\": \".\"\n  }\n}\n";

pub const LICENSE_BODY: &'static str = "MIT License\n\nCopyright (c) {{thisYear}} {{author}}\n\nPermission is hereby granted, free of charge, to any person obtaining a copy\nof this software and associated documentation files (the \"Software\"), to deal\nin the Software without restriction, including without limitation the rights\nto use, copy, modify, merge, publish, distribute, sublicense, and/or sell\ncopies of the Software, and to permit persons to whom the Software is\nfurnished to do so, subject to the following conditions:\n\nThe above copyright notice and this permission notice shall be included in all\ncopies or substantial portions of the Software.\n\nTHE SOFTWARE IS PROVIDED \"AS IS\", WITHOUT WARRANTY OF ANY KIND, EXPRESS OR\nIMPLIED, INCLUDING BUT NOT LIMITED TO THE WARRANTIES OF MERCHANTABILITY,\nFITNESS FOR A PARTICULAR PURPOSE AND NONINFRINGEMENT. IN NO EVENT SHALL THE\nAUTHORS OR COPYRIGHT HOLDERS BE LIABLE FOR ANY CLAIM, DAMAGES OR OTHER\nLIABILITY, WHETHER IN AN ACTION OF CONTRACT, TORT OR OTHERWISE, ARISING FROM,\nOUT OF OR IN CONNECTION WITH THE SOFTWARE OR THE USE OR OTHER DEALINGS IN THE\nSOFTWARE.\n";

pub const PACKAGE_BODY: &'static str = "{\n  \"name\": \"{{projectName}}\",\n  \"version\": \"0.1.0\",\n  \"description\": \"{{projectName}} ({{thisYear}})\",\n  \"private\": {{private}},\n  \"author\": \"{{author}}\",\n{{#if public}}  \"license\": \"MIT\",\n{{/if}}  \"type\": \"module\",\n  \"scripts\": {\n{{#if withVue}}    \"dev\": \"vite\",\n    \"build\": \"vite build\"\n{{else}}    \"start\": \"node index.js\"\n{{/if}}  }{{#if withVue}},\n  \"dependencies\": {\n    \"vue\": \"^3.4.0\"\n  },\n  \"devDependencies\": {\n    \"@vitejs/plugin-vue\": \"^5.0.0\",\n    \"vite\": \"^5.0.0\"\n  }{{/if}}\n}\n";

pub const VITE_CONFIG_BODY: &'static str = "import { defineConfig } from 'vite'\nimport vue from '@vitejs/plugin-vue'\n\nexport default defineConfig({\n  plugins: [vue()],\n})\n";

/// A named template: `name` is also the file that its output is written to.
pub struct Template {
    pub name: String,
    pub body: String,
}

pub open spec fn templates_view(ts: Seq<Template>) -> Seq<(Seq<char>, Seq<char>)> {
    ts.map_values(|t: Template| (t.name@, t.body@))
}

/// The fixed catalog, as (name, body) pairs.
pub open spec fn catalog_spec() -> Seq<(Seq<char>, Seq<char>)> {
    seq![
        (NPMRC_NAME@, NPMRC_BODY@),
        (EDITORCONFIG_NAME@, EDITORCONFIG_BODY@),
        (GITIGNORE_NAME@, GITIGNORE_BODY@),
        (JSCONFIG_NAME@, JSCONFIG_BODY@),
        (LICENSE_NAME@, LICENSE_BODY@),
        (PACKAGE_NAME@, PACKAGE_BODY@),
        (VITE_CONFIG_NAME@, VITE_CONFIG_BODY@),
    ]
}

fn template(name: &str, body: &str) -> (r: Template)
    ensures
        r.name@ == name@,
        r.body@ == body@,
{
    Template { name: String::from_str(name), body: String::from_str(body) }
}

/// Builds the fixed template catalog.
pub fn catalog() -> (r: Vec<Template>)
    ensures
        templates_view(r@) == catalog_spec(),
{
    let mut v: Vec<Template> = Vec::new();
    v.push(template(NPMRC_NAME, NPMRC_BODY));
    v.push(template(EDITORCONFIG_NAME, EDITORCONFIG_BODY));
    v.push(template(GITIGNORE_NAME, GITIGNORE_BODY));
    v.push(template(JSCONFIG_NAME, JSCONFIG_BODY));
    v.push(template(LICENSE_NAME, LICENSE_BODY));
    v.push(template(PACKAGE_NAME, PACKAGE_BODY));
    v.push(template(VITE_CONFIG_NAME, VITE_CONFIG_BODY));
    assert(templates_view(v@) =~= catalog_spec());
    v
}

/// When a skip rule applies.
#[derive(Clone, Copy)]
pub enum Condition {
    /// The project is private.
    Private,
    /// The Vue add-on was not asked for.
    VueAbsent,
}

pub open spec fn condition_holds(c: Condition, s: SettingsView) -> bool {
    match c {
        Condition::Private => s.is_private,
        Condition::VueAbsent => !s.with_vue,
    }
}

/// Omits the template called `name` whenever `condition` holds.
pub struct SkipRule {
    pub condition: Condition,
    pub name: String,
}

pub open spec fn rules_view(rs: Seq<SkipRule>) -> Seq<(Condition, Seq<char>)> {
    rs.map_values(|r: SkipRule| (r.condition, r.name@))
}

/// The skip rules, in the order they are evaluated.
pub open spec fn skip_rules_spec() -> Seq<(Condition, Seq<char>)> {
    seq![(Condition::Private, LICENSE_NAME@), (Condition::VueAbsent, VITE_CONFIG_NAME@)]
}

/// Builds the skip rules.
pub fn skip_rules() -> (r: Vec<SkipRule>)
    ensures
        rules_view(r@) == skip_rules_spec(),
{
    let mut v: Vec<SkipRule> = Vec::new();
    v.push(SkipRule { condition: Condition::Private, name: String::from_str(LICENSE_NAME) });
    v.push(SkipRule { condition: Condition::VueAbsent, name: String::from_str(VITE_CONFIG_NAME) });
    assert(rules_view(v@) =~= skip_rules_spec());
    v
}

/// A template is skipped when some rule names it and its condition holds.
pub open spec fn skipped(s: SettingsView, name: Seq<char>) -> bool {
    exists|i: int|
        0 <= i < skip_rules_spec().len() && (#[trigger] skip_rules_spec()[i]).1 == name
            && condition_holds(skip_rules_spec()[i].0, s)
}

/// Tells whether the template called `name` is left out for these settings.
pub fn is_skipped(s: &Settings, name: &String) -> (r: bool)
    ensures
        r == skipped(s@, name@),
{
    let rules = skip_rules();
    let mut i: usize = 0;
    while i < rules.len()
        invariant
            0 <= i <= rules.len(),
            rules_view(rules@) == skip_rules_spec(),
            forall|j: int|
                0 <= j < i ==> !((#[trigger] skip_rules_spec()[j]).1 == name@ && condition_holds(
                    skip_rules_spec()[j].0,
                    s@,
                )),
        decreases rules.len() - i,
    {
        let rule = &rules[i];
        assert(skip_rules_spec()[i as int] == (rule.condition, rule.name@));
        let holds = match rule.condition {
            Condition::Private => s.is_private,
            Condition::VueAbsent => !s.with_vue,
        };
        if holds && rule.name == *name {
            return true;
        }
        i += 1;
    }
    false
}

} // verus!
