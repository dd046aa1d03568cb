//! Named credential/model presets and the fallback order over them.
//!
//! A preset snapshots the five provider-related settings. Presets are
//! deduplicated by provider, model, key and URL (headers excluded), get
//! process-unique increasing identifiers, and may be listed in a fallback
//! order that is kept free of deleted presets. Loading and saving the
//! presets file is done by the binary layer.

use vstd::prelude::*;
use vstd::assert_by_contradiction;
use crate::config::AppConfig;

verus! {

/// Errors surfaced by preset operations.
#[derive(Debug, PartialEq, Eq, Structural)]
pub enum PresetError {
    /// No preset carries the requested identifier.
    NotFound,
}

/// The five provider-related settings a preset snapshots.
#[derive(Debug, Clone, PartialEq)]
pub struct LlmPresetFields {
    pub provider: String,
    pub model: String,
    pub api_key: String,
    pub api_url: String,
    pub api_headers: String,
}

/// A named, identified preset.
#[derive(Debug, Clone)]
pub struct Preset {
    pub id: u32,
    pub name: String,
    pub fields: LlmPresetFields,
}

/// Which presets to fall back to, in order, when the primary call fails.
#[derive(Debug, Clone)]
pub struct FallbackConfig {
    pub enabled: bool,
    pub order: Vec<u32>,
}

/// The whole presets file: the next free identifier, the presets, and
/// the fallback order.
#[derive(Debug, Clone)]
pub struct PresetsFile {
    pub next_id: u32,
    pub presets: Vec<Preset>,
    pub fallback: FallbackConfig,
}

/// A preset, field by field, as contracts speak of it.
pub ghost struct PresetView {
    pub id: u32,
    pub name: Seq<char>,
    pub provider: Seq<char>,
    pub model: Seq<char>,
    pub api_key: Seq<char>,
    pub api_url: Seq<char>,
    pub api_headers: Seq<char>,
}

impl View for Preset {
    type V = PresetView;

    open spec fn view(&self) -> PresetView {
        PresetView {
            id: self.id,
            name: self.name@,
            provider: self.fields.provider@,
            model: self.fields.model@,
            api_key: self.fields.api_key@,
            api_url: self.fields.api_url@,
            api_headers: self.fields.api_headers@,
        }
    }
}

/// The views of a list of presets, in order.
pub open spec fn spec_preset_views(ps: Seq<Preset>) -> Seq<PresetView> {
    ps.map_values(|p: Preset| p@)
}

impl PresetsFile {
    /// Well-formedness: every preset's identifier lies below the next
    /// free one, so a freshly assigned identifier never collides with an
    /// existing preset. Every file built through this module satisfies
    /// it; only a hand-edited file can break it.
    pub open spec fn wf(self) -> bool {
        forall|i: int|
            0 <= i < self.presets@.len() ==> (#[trigger] self.presets@[i].id)
                < self.next_id
    }
}

impl Default for FallbackConfig {
    fn default() -> (r: Self)
        ensures
            !r.enabled,
            r.order@.len() == 0,
    {
        FallbackConfig { enabled: false, order: Vec::new() }
    }
}

impl Default for PresetsFile {
    fn default() -> (r: Self)
        ensures
            r.next_id == 0,
            r.presets@.len() == 0,
            !r.fallback.enabled,
            r.fallback.order@.len() == 0,
            r.wf(),
    {
        PresetsFile { next_id: 0, presets: Vec::new(), fallback: FallbackConfig::default() }
    }
}

/// Copy a preset's fields value for value.
fn clone_fields(f: &LlmPresetFields) -> (r: LlmPresetFields)
    ensures
        r == *f,
{
    LlmPresetFields {
        provider: f.provider.clone(),
        model: f.model.clone(),
        api_key: f.api_key.clone(),
        api_url: f.api_url.clone(),
        api_headers: f.api_headers.clone(),
    }
}

/// Two field sets denote the same credentials: provider, model, key and
/// URL agree; headers are deliberately ignored.
pub open spec fn spec_dedup_eq(a: LlmPresetFields, b: LlmPresetFields) -> bool {
    &&& a.provider@ == b.provider@
    &&& a.model@ == b.model@
    &&& a.api_key@ == b.api_key@
    &&& a.api_url@ == b.api_url@
}

/// Whether `k` indexes the first preset whose fields duplicate `fields`.
pub open spec fn spec_is_first_dup(ps: Seq<Preset>, fields: LlmPresetFields, k: int) -> bool {
    &&& 0 <= k < ps.len()
    &&& spec_dedup_eq(ps[k].fields, fields)
    &&& forall|i: int| 0 <= i < k ==> !spec_dedup_eq(#[trigger] ps[i].fields, fields)
}

/// Compare two field sets on the deduplication key.
pub(crate) fn dedup_eq(a: &LlmPresetFields, b: &LlmPresetFields) -> (r: bool)
    ensures
        r == spec_dedup_eq(*a, *b),
{
    a.provider.eq(&b.provider) && a.model.eq(&b.model) && a.api_key.eq(&b.api_key)
        && a.api_url.eq(&b.api_url)
}

/// The identifier of the first preset that duplicates `fields` on the
/// deduplication key (headers excluded), if any does.
pub fn find_duplicate(file: &PresetsFile, fields: &LlmPresetFields) -> (r: Option<u32>)
    ensures
        r is Some <==> exists|i: int|
            0 <= i < file.presets@.len() && spec_dedup_eq(
                #[trigger] file.presets@[i].fields,
                *fields,
            ),
        forall|k: int|
            spec_is_first_dup(file.presets@, *fields, k) ==> r == Some(
                file.presets@[k].id,
            ),
{
    let mut i: usize = 0;
    while i < file.presets.len()
        invariant
            0 <= i <= file.presets@.len(),
            forall|j: int|
                0 <= j < i ==> !spec_dedup_eq(#[trigger] file.presets@[j].fields, *fields),
        decreases file.presets@.len() - i,
    {
        if dedup_eq(&file.presets[i].fields, fields) {
            return Some(file.presets[i].id);
        }
        i = i + 1;
    }
    None
}

/// The automatic name of a preset: `provider/model`.
pub open spec fn spec_auto_name(fields: LlmPresetFields) -> Seq<char> {
    fields.provider@ + ("/")@ + fields.model@
}

/// Append a new preset and hand back its identifier. The identifier is
/// the file's next free one, which is then advanced; a missing name is
/// derived from the fields as `provider/model`; nothing else changes.
pub fn create_preset(file: &mut PresetsFile, name: Option<String>, fields: LlmPresetFields) -> (r:
    u32)
    requires
        old(file).next_id < u32::MAX,
    ensures
        r == old(file).next_id,
        final(file).next_id == old(file).next_id + 1,
        final(file).presets@.len() == old(file).presets@.len() + 1,
        forall|i: int|
            0 <= i < old(file).presets@.len() ==> final(file).presets@[i] == old(file).presets@[i],
        final(file).presets@.last().id == old(file).next_id,
        final(file).presets@.last().fields == fields,
        final(file).presets@.last().name@ == (match name {
            Some(n) => n@,
            None => spec_auto_name(fields),
        }),
        final(file).fallback == old(file).fallback,
        old(file).wf() ==> final(file).wf(),
{
    let id = file.next_id;
    file.next_id = file.next_id + 1;
    let preset_name = match name {
        Some(n) => n,
        None => {
            let mut auto = fields.provider.clone();
            auto.append("/");
            auto.append(fields.model.as_str());
            auto
        },
    };
    file.presets.push(Preset { id, name: preset_name, fields });
    id
}

/// Remove the preset with identifier `id` (every copy of it, if several)
/// and drop the identifier from the fallback order. Order of the
/// remaining presets and fallback entries is kept.
pub fn delete_preset(file: &mut PresetsFile, id: u32)
    ensures
        final(file).presets@ == old(file).presets@.filter(
            (|p: Preset| p.id != id),
        ),
        final(file).fallback.order@ == old(file).fallback.order@.filter(
            (|fid: u32| fid != id),
        ),
        final(file).next_id == old(file).next_id,
        final(file).fallback.enabled == old(file).fallback.enabled,
        old(file).wf() ==> final(file).wf(),
{
    let ghost pred = (|p: Preset| p.id != id);
    let mut kept: Vec<Preset> = Vec::new();
    let mut i: usize = 0;
    while i < file.presets.len()
        invariant
            0 <= i <= file.presets@.len(),
            kept@ == file.presets@.take(i as int).filter(pred),
            pred == (|p: Preset| p.id != id),
            *file == *old(file),
            old(file).wf() ==> forall|k: int|
                0 <= k < kept@.len() ==> (#[trigger] kept@[k].id) < old(file).next_id,
        decreases file.presets@.len() - i,
    {
        proof {
            reveal_with_fuel(Seq::<Preset>::filter, 2);
            let prefix1 = file.presets@.take(i as int + 1);
            assert(prefix1.drop_last() =~= file.presets@.take(i as int));
            assert(prefix1.last() == file.presets@[i as int]);
            if pred(prefix1.last()) {
                assert(prefix1.filter(pred) == prefix1.drop_last().filter(pred).push(
                    prefix1.last(),
                ));
            } else {
                assert(prefix1.filter(pred) == prefix1.drop_last().filter(pred));
            }
        }
        let p = &file.presets[i];
        if p.id != id {
            let copy = Preset { id: p.id, name: p.name.clone(), fields: clone_fields(&p.fields) };
            assert(copy == file.presets@[i as int]);
            kept.push(copy);
        }
        i = i + 1;
    }
    proof {
        assert(file.presets@.take(file.presets@.len() as int) =~= file.presets@);
    }
    file.presets = kept;
    let ghost fpred = (|fid: u32| fid != id);
    let mut korder: Vec<u32> = Vec::new();
    let mut j: usize = 0;
    while j < file.fallback.order.len()
        invariant
            0 <= j <= file.fallback.order@.len(),
            korder@ == file.fallback.order@.take(j as int).filter(fpred),
            fpred == (|fid: u32| fid != id),
        decreases file.fallback.order@.len() - j,
    {
        proof {
            reveal_with_fuel(Seq::<u32>::filter, 2);
            let prefix1 = file.fallback.order@.take(j as int + 1);
            assert(prefix1.drop_last() =~= file.fallback.order@.take(j as int));
            assert(prefix1.last() == file.fallback.order@[j as int]);
            if fpred(prefix1.last()) {
                assert(prefix1.filter(fpred) == prefix1.drop_last().filter(fpred).push(
                    prefix1.last(),
                ));
            } else {
                assert(prefix1.filter(fpred) == prefix1.drop_last().filter(fpred));
            }
        }
        let fid = file.fallback.order[j];
        if fid != id {
            korder.push(fid);
        }
        j = j + 1;
    }
    proof {
        assert(file.fallback.order@.take(file.fallback.order@.len() as int)
            =~= file.fallback.order@);
    }
    file.fallback.order = korder;
}

/// Whether `k` indexes the first preset carrying identifier `id`.
pub open spec fn spec_is_first_with_id(ps: Seq<Preset>, id: u32, k: int) -> bool {
    &&& 0 <= k < ps.len()
    &&& ps[k].id == id
    &&& forall|i: int| 0 <= i < k ==> (#[trigger] ps[i].id) != id
}

/// Give the first preset carrying identifier `id` a new name; without a
/// match, nothing changes.
pub fn rename_preset(file: &mut PresetsFile, id: u32, new_name: String)
    ensures
        final(file).presets@.len() == old(file).presets@.len(),
        final(file).next_id == old(file).next_id,
        final(file).fallback == old(file).fallback,
        old(file).wf() ==> final(file).wf(),
        (forall|i: int|
            0 <= i < old(file).presets@.len() ==> (#[trigger] old(file).presets@[i].id)
                != id) ==> final(file).presets == old(file).presets,
        forall|k: int|
            spec_is_first_with_id(old(file).presets@, id, k) ==> {
                &&& final(file).presets@[k].name@ == new_name@
                &&& final(file).presets@[k].id == old(file).presets@[k].id
                &&& final(file).presets@[k].fields == old(file).presets@[k].fields
                &&& forall|i: int|
                    0 <= i < old(file).presets@.len() && i != k ==> final(file).presets@[i] == old(file).presets@[i]
            },
{
    let n = file.presets.len();
    let mut i: usize = 0;
    while i < n
        invariant
            0 <= i <= n == file.presets@.len(),
            file.presets == old(file).presets,
            file.next_id == old(file).next_id,
            file.fallback == old(file).fallback,
            forall|j: int| 0 <= j < i ==> (#[trigger] file.presets@[j].id) != id,
        decreases n - i,
    {
        if file.presets[i].id == id {
            let renamed = Preset {
                id,
                name: new_name,
                fields: clone_fields(&file.presets[i].fields),
            };
            file.presets.set(i, renamed);
            return ;
        }
        i = i + 1;
    }
}

/// Copy the first preset carrying identifier `id` into a new preset named
/// after it with a `" (copy)"` suffix; fails when no preset has that
/// identifier.
pub fn duplicate_preset(file: &mut PresetsFile, id: u32) -> (r: Result<u32, PresetError>)
    requires
        old(file).next_id < u32::MAX,
    ensures
        r is Ok <==> exists|i: int|
            0 <= i < old(file).presets@.len() && (#[trigger] old(file).presets@[i].id)
                == id,
        r is Err ==> r == Result::<u32, PresetError>::Err(PresetError::NotFound)
            && *final(file) == *old(file),
        r matches Ok(new_id) ==> {
            &&& new_id == old(file).next_id
            &&& final(file).next_id == old(file).next_id + 1
            &&& final(file).presets@.len() == old(file).presets@.len() + 1
            &&& forall|i: int|
                0 <= i < old(file).presets@.len() ==> final(file).presets@[i] == old(file).presets@[i]
            &&& final(file).presets@.last().id == old(file).next_id
            &&& forall|k: int|
                spec_is_first_with_id(old(file).presets@, id, k) ==> {
                    &&& final(file).presets@.last().fields == old(file).presets@[k].fields
                    &&& final(file).presets@.last().name@ == old(file).presets@[k].name@
                        + (" (copy)")@
                }
            &&& final(file).fallback == old(file).fallback
        },
        old(file).wf() ==> final(file).wf(),
        old(file).wf() ==> (r matches Ok(new_id) ==> new_id != id),
{
    let n = file.presets.len();
    let mut i: usize = 0;
    while i < n
        invariant
            0 <= i <= n == file.presets@.len(),
            file.presets == old(file).presets,
            file.next_id == old(file).next_id,
            file.next_id < u32::MAX,
            file.fallback == old(file).fallback,
            forall|j: int| 0 <= j < i ==> (#[trigger] file.presets@[j].id) != id,
        decreases n - i,
    {
        if file.presets[i].id == id {
            proof {
                if old(file).wf() {
                    assert(file.presets@[i as int].id < file.next_id);
                }
            }
            let mut new_name = file.presets[i].name.clone();
            new_name.append(" (copy)");
            let fields = clone_fields(&file.presets[i].fields);
            let new_id = create_preset(file, Some(new_name), fields);
            return Ok(new_id);
        }
        i = i + 1;
    }
    Err(PresetError::NotFound)
}

/// Snapshot the provider-related settings of a configuration.
pub fn fields_from_config(cfg: &AppConfig) -> (r: LlmPresetFields)
    ensures
        r.provider == cfg.provider,
        r.model == cfg.model,
        r.api_key == cfg.api_key,
        r.api_url == cfg.api_url,
        r.api_headers == cfg.api_headers,
{
    LlmPresetFields {
        provider: cfg.provider.clone(),
        model: cfg.model.clone(),
        api_key: cfg.api_key.clone(),
        api_url: cfg.api_url.clone(),
        api_headers: cfg.api_headers.clone(),
    }
}

/// Load a preset's fields into the provider-related settings of a
/// configuration, leaving every other setting untouched.
pub fn apply_preset_to_config(cfg: &mut AppConfig, preset: &Preset)
    ensures
        final(cfg).provider == preset.fields.provider,
        final(cfg).model == preset.fields.model,
        final(cfg).api_key == preset.fields.api_key,
        final(cfg).api_url == preset.fields.api_url,
        final(cfg).api_headers == preset.fields.api_headers,
        final(cfg).locale == old(cfg).locale,
        final(cfg).one_liner == old(cfg).one_liner,
        final(cfg).commit_template == old(cfg).commit_template,
        final(cfg).llm_system_prompt == old(cfg).llm_system_prompt,
        final(cfg).use_gitmoji == old(cfg).use_gitmoji,
        final(cfg).gitmoji_format == old(cfg).gitmoji_format,
        final(cfg).review_commit == old(cfg).review_commit,
        final(cfg).post_commit_push == old(cfg).post_commit_push,
        final(cfg).suppress_tool_output == old(cfg).suppress_tool_output,
        final(cfg).warn_staged_files_enabled == old(cfg).warn_staged_files_enabled,
        final(cfg).warn_staged_files_threshold == old(cfg).warn_staged_files_threshold,
        final(cfg).confirm_new_version == old(cfg).confirm_new_version,
        final(cfg).auto_update == old(cfg).auto_update,
        final(cfg).fallback_enabled == old(cfg).fallback_enabled,
        final(cfg).track_generated_commits == old(cfg).track_generated_commits,
{
    cfg.provider = preset.fields.provider.clone();
    cfg.model = preset.fields.model.clone();
    cfg.api_key = preset.fields.api_key.clone();
    cfg.api_url = preset.fields.api_url.clone();
    cfg.api_headers = preset.fields.api_headers.clone();
}

/// Whether the configuration's provider-related settings have drifted
/// from a loaded preset snapshot (all five fields count here, headers
/// included).
pub fn preset_is_modified(cfg: &AppConfig, snapshot: &LlmPresetFields) -> (r: bool)
    ensures
        r == !(cfg.provider@ == snapshot.provider@ && cfg.model@ == snapshot.model@
            && cfg.api_key@ == snapshot.api_key@ && cfg.api_url@ == snapshot.api_url@
            && cfg.api_headers@ == snapshot.api_headers@),
{
    !(cfg.provider.eq(&snapshot.provider) && cfg.model.eq(&snapshot.model) && cfg.api_key.eq(
        &snapshot.api_key,
    ) && cfg.api_url.eq(&snapshot.api_url) && cfg.api_headers.eq(&snapshot.api_headers))
}

/// The first preset carrying identifier `id`, if any.
pub open spec fn spec_find_by_id(ps: Seq<Preset>, id: u32) -> Option<Preset>
    decreases ps.len(),
{
    if ps.len() == 0 {
        None
    } else if ps.first().id == id {
        Some(ps.first())
    } else {
        spec_find_by_id(ps.drop_first(), id)
    }
}

/// Find the first preset carrying identifier `id`.
pub fn find_by_id(ps: &Vec<Preset>, id: u32) -> (r: Option<Preset>)
    ensures
        r == spec_find_by_id(ps@, id),
{
    let n = ps.len();
    let mut i: usize = 0;
    proof {
        assert(ps@.skip(0) =~= ps@);
    }
    while i < n
        invariant
            0 <= i <= n == ps@.len(),
            spec_find_by_id(ps@, id) == spec_find_by_id(ps@.skip(i as int), id),
        decreases n - i,
    {
        proof {
            assert(ps@.skip(i as int).first() == ps@[i as int]);
            assert(ps@.skip(i as int).drop_first() =~= ps@.skip(i as int + 1));
        }
        if ps[i].id == id {
            let p = &ps[i];
            return Some(
                Preset { id: p.id, name: p.name.clone(), fields: clone_fields(&p.fields) },
            );
        }
        i = i + 1;
    }
    proof {
        assert(ps@.skip(n as int) =~= Seq::<Preset>::empty());
    }
    None
}

/// What an export of the presets with the given identifiers holds: one
/// entry per requested identifier that names a preset, in request order,
/// with the identifier cleared (identifiers are reassigned on import)
/// and the API key blanked unless keys are included.
pub open spec fn spec_export_selection(
    ps: Seq<Preset>,
    ids: Seq<u32>,
    include_keys: bool,
) -> Seq<PresetView>
    decreases ids.len(),
{
    if ids.len() == 0 {
        Seq::empty()
    } else {
        spec_export_selection(ps, ids.drop_last(), include_keys) + (match spec_find_by_id(
            ps,
            ids.last(),
        ) {
            Some(p) => seq![
                PresetView {
                    id: 0,
                    name: p.name@,
                    provider: p.fields.provider@,
                    model: p.fields.model@,
                    api_key: if include_keys {
                        p.fields.api_key@
                    } else {
                        Seq::empty()
                    },
                    api_url: p.fields.api_url@,
                    api_headers: p.fields.api_headers@,
                },
            ],
            None => Seq::empty(),
        })
    }
}

/// Select presets for export by identifier: identifiers are cleared and
/// the API key is blanked unless keys are included.
pub fn select_for_export(file: &PresetsFile, ids: &Vec<u32>, include_keys: bool) -> (r: Vec<
    Preset,
>)
    ensures
        spec_preset_views(r@) == spec_export_selection(file.presets@, ids@, include_keys),
{
    let mut r: Vec<Preset> = Vec::new();
    let n = ids.len();
    let mut i: usize = 0;
    proof {
        assert(spec_preset_views(r@) =~= spec_export_selection(
            file.presets@,
            ids@.take(0),
            include_keys,
        ));
    }
    while i < n
        invariant
            0 <= i <= n == ids@.len(),
            spec_preset_views(r@) == spec_export_selection(
                file.presets@,
                ids@.take(i as int),
                include_keys,
            ),
        decreases n - i,
    {
        proof {
            assert(ids@.take(i as int + 1).drop_last() =~= ids@.take(i as int));
            assert(ids@.take(i as int + 1).last() == ids@[i as int]);
        }
        match find_by_id(&file.presets, ids[i]) {
            Some(p) => {
                let api_key = if include_keys {
                    p.fields.api_key.clone()
                } else {
                    String::new()
                };
                r.push(
                    Preset {
                        id: 0,
                        name: p.name.clone(),
                        fields: LlmPresetFields {
                            provider: p.fields.provider.clone(),
                            model: p.fields.model.clone(),
                            api_key,
                            api_url: p.fields.api_url.clone(),
                            api_headers: p.fields.api_headers.clone(),
                        },
                    },
                );
                proof {
                    assert(spec_preset_views(r@) =~~= spec_export_selection(
                        file.presets@,
                        ids@.take(i as int + 1),
                        include_keys,
                    ));
                }
            },
            None => {
                proof {
                    assert(spec_preset_views(r@) =~~= spec_export_selection(
                        file.presets@,
                        ids@.take(i as int + 1),
                        include_keys,
                    ));
                }
            },
        }
        i = i + 1;
    }
    proof {
        assert(ids@.take(n as int) =~= ids@);
    }
    r
}

/// View-level deduplication: provider, model, key and URL agree.
pub open spec fn spec_view_dup(a: PresetView, b: PresetView) -> bool {
    &&& a.provider == b.provider
    &&& a.model == b.model
    &&& a.api_key == b.api_key
    &&& a.api_url == b.api_url
}

/// Whether any preset of `vs` duplicates `v`.
pub open spec fn spec_has_dup(vs: Seq<PresetView>, v: PresetView) -> bool {
    exists|i: int| 0 <= i < vs.len() && spec_view_dup(#[trigger] vs[i], v)
}

/// What merging a list of imported presets does, one at a time in import
/// order: an import that duplicates a preset already present (earlier
/// imports included) is skipped; every other one is appended under the
/// next free identifier, keeping its name and fields. The result is the
/// preset list, the next free identifier, and the number imported.
pub open spec fn spec_import_fold(
    cur: Seq<PresetView>,
    next: int,
    imports: Seq<PresetView>,
) -> (Seq<PresetView>, int, int)
    decreases imports.len(),
{
    if imports.len() == 0 {
        (cur, next, 0)
    } else {
        let prev = spec_import_fold(cur, next, imports.drop_last());
        let p = imports.last();
        if spec_has_dup(prev.0, p) {
            prev
        } else {
            (
                prev.0.push(PresetView { id: prev.1 as u32, ..p }),
                prev.1 + 1,
                prev.2 + 1,
            )
        }
    }
}

/// Merge imported presets into the file, deduplicating against the
/// presets already present (earlier imports included) and assigning
/// fresh identifiers in import order. Returns the number imported.
pub fn merge_imported(file: &mut PresetsFile, imported: &Vec<Preset>) -> (count: usize)
    requires
        old(file).next_id + imported@.len() <= u32::MAX,
    ensures
        ({
            let folded = spec_import_fold(
                spec_preset_views(old(file).presets@),
                old(file).next_id as int,
                spec_preset_views(imported@),
            );
            &&& spec_preset_views(final(file).presets@) == folded.0
            &&& final(file).next_id as int == folded.1
            &&& count as int == folded.2
        }),
        final(file).fallback == old(file).fallback,
        old(file).wf() ==> final(file).wf(),
{
    let ghost start_views = spec_preset_views(old(file).presets@);
    let ghost start_next = old(file).next_id as int;
    let ghost iv = spec_preset_views(imported@);
    let n = imported.len();
    let mut count: usize = 0;
    let mut i: usize = 0;
    proof {
        assert(iv.take(0) =~= Seq::<PresetView>::empty());
    }
    while i < n
        invariant
            0 <= i <= n == imported@.len() == iv.len(),
            iv == spec_preset_views(imported@),
            start_views == spec_preset_views(old(file).presets@),
            start_next == old(file).next_id as int,
            ({
                let folded = spec_import_fold(start_views, start_next, iv.take(i as int));
                &&& spec_preset_views(file.presets@) == folded.0
                &&& file.next_id as int == folded.1
                &&& count as int == folded.2
            }),
            count <= i,
            file.next_id as int == start_next + count,
            start_next + imported@.len() <= u32::MAX,
            file.fallback == old(file).fallback,
            old(file).wf() ==> file.wf(),
        decreases n - i,
    {
        proof {
            assert(iv.take(i as int + 1).drop_last() =~= iv.take(i as int));
            assert(iv.take(i as int + 1).last() == iv[i as int]);
            assert(iv[i as int] == imported@[i as int]@);
        }
        let p = &imported[i];
        let ghost vs = spec_preset_views(file.presets@);
        proof {
            assert(vs.len() == file.presets@.len());
            assert forall|k: int| 0 <= k < vs.len() implies ((#[trigger] spec_view_dup(
                vs[k],
                p@,
            )) <==> spec_dedup_eq(file.presets@[k].fields, p.fields)) by {
                assert(vs[k] == file.presets@[k]@);
            }
        }
        let dup = find_duplicate(file, &p.fields);
        proof {
            if dup is Some {
                let k = choose|k: int|
                    0 <= k < file.presets@.len() && spec_dedup_eq(
                        #[trigger] file.presets@[k].fields,
                        p.fields,
                    );
                assert(spec_view_dup(vs[k], p@));
                assert(spec_has_dup(vs, p@));
            } else {
                assert_by_contradiction!(!spec_has_dup(vs, p@), {
                    let k = choose|k: int|
                        0 <= k < vs.len() && spec_view_dup(#[trigger] vs[k], p@);
                    assert(spec_dedup_eq(file.presets@[k].fields, p.fields));
                });
            }
        }
        if dup.is_none() {
            let name = p.name.clone();
            let fields = clone_fields(&p.fields);
            create_preset(file, Some(name), fields);
            count = count + 1;
            proof {
                assert(spec_preset_views(file.presets@) =~~= spec_import_fold(
                    start_views,
                    start_next,
                    iv.take(i as int + 1),
                ).0);
            }
        }
        i = i + 1;
    }
    proof {
        assert(iv.take(n as int) =~= iv);
    }
    count
}

/// One-line rendering of a preset: name, provider/model, and whether an
/// API key is set.
pub fn preset_display(p: &Preset) -> (r: String)
    ensures
        r@ == p.name@ + (" (")@ + p.fields.provider@ + ("/")@ + p.fields.model@ + (", ")@
            + (if p.fields.api_key@.len() == 0 {
            ("no key")@
        } else {
            ("key set")@
        }) + (")")@,
{
    let mut r = p.name.clone();
    r.append(" (");
    r.append(p.fields.provider.as_str());
    r.append("/");
    r.append(p.fields.model.as_str());
    r.append(", ");
    if p.fields.api_key.as_str().is_empty() {
        r.append("no key");
    } else {
        r.append("key set");
    }
    r.append(")");
    r
}

} // verus!
