//! Construction of the system prompt sent to the language model, from
//! the configuration's flags: base prompt, the commit-format rules,
//! optional gitmoji and one-line instructions, an optional locale line,
//! and the closing instructions, joined by blank lines.

use vstd::prelude::*;
use crate::config::{AppConfig, ConfigView};

verus! {

/// The commit-format rules appended to every prompt.
pub fn conventional_commit_rules() -> (r: &'static str)
    ensures
        r@ == ("Write all commit messages strictly following the Conventional Commits specification.\n\nUse the following format:\n<type>[optional scope][optional !]: <description>\n\n[optional body]\n\n[optional footer(s)]\n\nRules to follow:\n1. Type: MUST be a noun. Use `feat` for new features, `fix` for bug fixes, or other relevant types (e.g., `docs`, `chore`, `refactor`).\n2. Scope: OPTIONAL. A noun describing the affected section of the codebase, enclosed in parentheses (e.g., `fix(parser):`).\n3. Description: REQUIRED. A concise summary immediately following the type/scope, colon, and space.\n4. Body: OPTIONAL. Provide additional context. MUST begin one blank line after the description.\n5. Footer: OPTIONAL. MUST begin one blank line after the body. Use token-value pairs (e.g., `Reviewed-by: Name`). Token words must be hyphenated.\n6. Breaking Changes: MUST be indicated by either an exclamation mark `!` immediately before the colon (e.g., `feat!:`) OR an uppercase `BREAKING CHANGE: <description>` in the footer.")@,
{
    "Write all commit messages strictly following the Conventional Commits specification.\n\nUse the following format:\n<type>[optional scope][optional !]: <description>\n\n[optional body]\n\n[optional footer(s)]\n\nRules to follow:\n1. Type: MUST be a noun. Use `feat` for new features, `fix` for bug fixes, or other relevant types (e.g., `docs`, `chore`, `refactor`).\n2. Scope: OPTIONAL. A noun describing the affected section of the codebase, enclosed in parentheses (e.g., `fix(parser):`).\n3. Description: REQUIRED. A concise summary immediately following the type/scope, colon, and space.\n4. Body: OPTIONAL. Provide additional context. MUST begin one blank line after the description.\n5. Footer: OPTIONAL. MUST begin one blank line after the body. Use token-value pairs (e.g., `Reviewed-by: Name`). Token words must be hyphenated.\n6. Breaking Changes: MUST be indicated by either an exclamation mark `!` immediately before the colon (e.g., `feat!:`) OR an uppercase `BREAKING CHANGE: <description>` in the footer."
}

/// The gitmoji instruction in unicode style.
pub fn gitmoji_unicode_rules() -> (r: &'static str)
    ensures
        r@ == ("Use Gitmoji: start the commit message with a relevant emoji in unicode format.\nExamples: \u{26a1}\u{fe0f} Improve performance, \u{1f41b} Fix bug, \u{2728} Add new feature, \u{267b}\u{fe0f} Refactor code, \u{1f4dd} Update docs, \u{1f3a8} Improve UI")@,
{
    "Use Gitmoji: start the commit message with a relevant emoji in unicode format.\nExamples: \u{26a1}\u{fe0f} Improve performance, \u{1f41b} Fix bug, \u{2728} Add new feature, \u{267b}\u{fe0f} Refactor code, \u{1f4dd} Update docs, \u{1f3a8} Improve UI"
}

/// The gitmoji instruction in shortcode style.
pub fn gitmoji_shortcode_rules() -> (r: &'static str)
    ensures
        r@ == ("Use Gitmoji: start the commit message with a relevant emoji in :shortcode: format.\nExamples: :zap: Improve performance, :bug: Fix bug, :sparkles: Add new feature, :recycle: Refactor code, :memo: Update docs, :art: Improve UI")@,
{
    "Use Gitmoji: start the commit message with a relevant emoji in :shortcode: format.\nExamples: :zap: Improve performance, :bug: Fix bug, :sparkles: Add new feature, :recycle: Refactor code, :memo: Update docs, :art: Improve UI"
}

/// The one-line-message instruction.
pub fn one_liner_rules() -> (r: &'static str)
    ensures
        r@ == ("Craft a concise, single sentence, commit message that encapsulates all changes made, with an emphasis on the primary updates. If the modifications share a common theme or scope, mention it succinctly; otherwise, leave the scope out to maintain focus. The goal is to provide a clear and unified overview of the changes in one single message.")@,
{
    "Craft a concise, single sentence, commit message that encapsulates all changes made, with an emphasis on the primary updates. If the modifications share a common theme or scope, mention it succinctly; otherwise, leave the scope out to maintain focus. The goal is to provide a clear and unified overview of the changes in one single message."
}

/// The closing instructions appended to every prompt.
pub fn closing_rules() -> (r: &'static str)
    ensures
        r@ == ("Use present tense. Be concise. Output only the raw commit message, nothing else.")@,
{
    "Use present tense. Be concise. Output only the raw commit message, nothing else."
}

/// The whole system prompt for a configuration: the (user-overridable)
/// base prompt, the commit-format rules, the gitmoji instruction when
/// enabled (in the configured style, unicode unless shortcode is asked
/// for), the one-line instruction when enabled, a locale line for any
/// locale but English, and the closing instructions -- each part
/// separated from the next by a blank line.
pub open spec fn spec_system_prompt(c: ConfigView) -> Seq<char> {
    c.llm_system_prompt + ("\n\n")@ + ("Write all commit messages strictly following the Conventional Commits specification.\n\nUse the following format:\n<type>[optional scope][optional !]: <description>\n\n[optional body]\n\n[optional footer(s)]\n\nRules to follow:\n1. Type: MUST be a noun. Use `feat` for new features, `fix` for bug fixes, or other relevant types (e.g., `docs`, `chore`, `refactor`).\n2. Scope: OPTIONAL. A noun describing the affected section of the codebase, enclosed in parentheses (e.g., `fix(parser):`).\n3. Description: REQUIRED. A concise summary immediately following the type/scope, colon, and space.\n4. Body: OPTIONAL. Provide additional context. MUST begin one blank line after the description.\n5. Footer: OPTIONAL. MUST begin one blank line after the body. Use token-value pairs (e.g., `Reviewed-by: Name`). Token words must be hyphenated.\n6. Breaking Changes: MUST be indicated by either an exclamation mark `!` immediately before the colon (e.g., `feat!:`) OR an uppercase `BREAKING CHANGE: <description>` in the footer.")@
        + (if c.use_gitmoji {
        ("\n\n")@ + (if c.gitmoji_format == ("shortcode")@ {
            ("Use Gitmoji: start the commit message with a relevant emoji in :shortcode: format.\nExamples: :zap: Improve performance, :bug: Fix bug, :sparkles: Add new feature, :recycle: Refactor code, :memo: Update docs, :art: Improve UI")@
        } else {
            ("Use Gitmoji: start the commit message with a relevant emoji in unicode format.\nExamples: \u{26a1}\u{fe0f} Improve performance, \u{1f41b} Fix bug, \u{2728} Add new feature, \u{267b}\u{fe0f} Refactor code, \u{1f4dd} Update docs, \u{1f3a8} Improve UI")@
        })
    } else {
        Seq::empty()
    }) + (if c.one_liner {
        ("\n\n")@ + ("Craft a concise, single sentence, commit message that encapsulates all changes made, with an emphasis on the primary updates. If the modifications share a common theme or scope, mention it succinctly; otherwise, leave the scope out to maintain focus. The goal is to provide a clear and unified overview of the changes in one single message.")@
    } else {
        Seq::empty()
    }) + (if c.locale != ("en")@ {
        ("\n\n")@ + ("Write the commit message in the '")@ + c.locale + ("' locale.")@
    } else {
        Seq::empty()
    }) + ("\n\n")@ + ("Use present tense. Be concise. Output only the raw commit message, nothing else.")@
}

/// Build the system prompt for a configuration.
pub fn build_system_prompt(cfg: &AppConfig) -> (r: String)
    ensures
        r@ == spec_system_prompt(cfg@),
{
    let mut s = cfg.llm_system_prompt.clone();
    s.append("\n\n");
    s.append(conventional_commit_rules());
    if cfg.use_gitmoji {
        s.append("\n\n");
        if crate::strutil::str_eq(cfg.gitmoji_format.as_str(), "shortcode") {
            s.append(gitmoji_shortcode_rules());
        } else {
            s.append(gitmoji_unicode_rules());
        }
    }
    if cfg.one_liner {
        s.append("\n\n");
        s.append(one_liner_rules());
    }
    if !crate::strutil::str_eq(cfg.locale.as_str(), "en") {
        s.append("\n\n");
        s.append("Write the commit message in the '");
        s.append(cfg.locale.as_str());
        s.append("' locale.");
    }
    s.append("\n\n");
    s.append(closing_rules());
    proof {
        assert(s@ =~= spec_system_prompt(cfg@));
    }
    s
}

} // verus!
