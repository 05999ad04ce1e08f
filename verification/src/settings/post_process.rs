//! Post-processing providers and prompts as the settings hold them, and the
//! catalog of built-in ones that they are normalised against.
use vstd::prelude::*;
use crate::text::{clone_opt_string, opt_string_eq, str_eq};

verus! {

broadcast use vstd::string::group_string_axioms;

/// A language-model service that cleans up transcriptions.
#[derive(Debug, Clone)]
pub struct PostProcessProvider {
    pub id: String,
    pub label: String,
    pub base_url: String,
    pub allow_base_url_edit: bool,
    pub models_endpoint: Option<String>,
    pub supports_structured_output: bool,
}

pub struct PostProcessProviderView {
    pub id: Seq<char>,
    pub label: Seq<char>,
    pub base_url: Seq<char>,
    pub allow_base_url_edit: bool,
    pub models_endpoint: Option<Seq<char>>,
    pub supports_structured_output: bool,
}

impl View for PostProcessProvider {
    type V = PostProcessProviderView;

    open spec fn view(&self) -> PostProcessProviderView {
        PostProcessProviderView {
            id: self.id@,
            label: self.label@,
            base_url: self.base_url@,
            allow_base_url_edit: self.allow_base_url_edit,
            models_endpoint: self.models_endpoint.deep_view(),
            supports_structured_output: self.supports_structured_output,
        }
    }
}

impl PostProcessProvider {
    pub fn duplicate(&self) -> (r: PostProcessProvider)
        ensures
            r@ == self@,
    {
        PostProcessProvider {
            id: self.id.clone(),
            label: self.label.clone(),
            base_url: self.base_url.clone(),
            allow_base_url_edit: self.allow_base_url_edit,
            models_endpoint: clone_opt_string(&self.models_endpoint),
            supports_structured_output: self.supports_structured_output,
        }
    }

    pub fn same_as(&self, other: &PostProcessProvider) -> (r: bool)
        ensures
            r == (self@ == other@),
    {
        str_eq(self.id.as_str(), other.id.as_str()) && str_eq(self.label.as_str(), other.label.as_str())
            && str_eq(self.base_url.as_str(), other.base_url.as_str())
            && self.allow_base_url_edit == other.allow_base_url_edit
            && opt_string_eq(&self.models_endpoint, &other.models_endpoint)
            && self.supports_structured_output == other.supports_structured_output
    }
}

/// A prompt that tells the language model how to rewrite a transcription.
#[derive(Debug, Clone)]
pub struct LLMPrompt {
    pub id: String,
    pub name: String,
    pub prompt: String,
}

pub struct LLMPromptView {
    pub id: Seq<char>,
    pub name: Seq<char>,
    pub prompt: Seq<char>,
}

impl View for LLMPrompt {
    type V = LLMPromptView;

    open spec fn view(&self) -> LLMPromptView {
        LLMPromptView { id: self.id@, name: self.name@, prompt: self.prompt@ }
    }
}

impl LLMPrompt {
    pub fn duplicate(&self) -> (r: LLMPrompt)
        ensures
            r@ == self@,
    {
        LLMPrompt { id: self.id.clone(), name: self.name.clone(), prompt: self.prompt.clone() }
    }

    pub fn same_as(&self, other: &LLMPrompt) -> (r: bool)
        ensures
            r == (self@ == other@),
    {
        str_eq(self.id.as_str(), other.id.as_str()) && str_eq(self.name.as_str(), other.name.as_str())
            && str_eq(self.prompt.as_str(), other.prompt.as_str())
    }
}

pub open spec fn pp_providers_view(v: Seq<PostProcessProvider>) -> Seq<PostProcessProviderView> {
    v.map_values(|p: PostProcessProvider| p@)
}

pub open spec fn prompts_view(v: Seq<LLMPrompt>) -> Seq<LLMPromptView> {
    v.map_values(|p: LLMPrompt| p@)
}

/// Index of the first provider with the id, or the length where there is none.
#[verifier::opaque]
pub open spec fn first_pp_provider_index(ps: Seq<PostProcessProviderView>, id: Seq<char>) -> int
    decreases ps.len(),
{
    if ps.len() == 0 {
        0
    } else if ps[0].id == id {
        0
    } else {
        1 + first_pp_provider_index(ps.drop_first(), id)
    }
}

pub proof fn lemma_first_pp_provider_index(ps: Seq<PostProcessProviderView>, id: Seq<char>)
    ensures
        0 <= first_pp_provider_index(ps, id) <= ps.len(),
        first_pp_provider_index(ps, id) < ps.len() ==> ps[first_pp_provider_index(ps, id)].id == id,
        forall|j: int| 0 <= j < first_pp_provider_index(ps, id) ==> ps[j].id != id,
    decreases ps.len(),
{
    reveal(first_pp_provider_index);
    if ps.len() > 0 && ps[0].id != id {
        lemma_first_pp_provider_index(ps.drop_first(), id);
        assert forall|j: int| 0 < j < first_pp_provider_index(ps, id) implies ps[j].id != id by {
            assert(ps[j] == ps.drop_first()[j - 1]);
        }
    }
}

pub proof fn lemma_first_pp_provider_index_unique(ps: Seq<PostProcessProviderView>, id: Seq<char>, i: int)
    requires
        0 <= i <= ps.len(),
        i < ps.len() ==> ps[i].id == id,
        forall|j: int| 0 <= j < i ==> ps[j].id != id,
    ensures
        first_pp_provider_index(ps, id) == i,
{
    lemma_first_pp_provider_index(ps, id);
}

/// The index of the first provider with the id, if one has it.
pub fn find_pp_provider(ps: &Vec<PostProcessProvider>, id: &str) -> (r: Option<usize>)
    ensures
        match r {
            Some(i) => i < ps@.len() && i == first_pp_provider_index(pp_providers_view(ps@), id@),
            None => first_pp_provider_index(pp_providers_view(ps@), id@) == ps@.len(),
        },
{
    let n = ps.len();
    for i in 0..n
        invariant
            n == ps@.len(),
            forall|j: int| 0 <= j < i ==> ps@[j].id@ != id@,
    {
        if str_eq(ps[i].id.as_str(), id) {
            proof {
                lemma_first_pp_provider_index_unique(pp_providers_view(ps@), id@, i as int);
            }
            return Some(i);
        }
    }
    proof {
        lemma_first_pp_provider_index_unique(pp_providers_view(ps@), id@, n as int);
    }
    None
}

/// The first provider with the id, if one has it.
pub open spec fn spec_find_pp_provider(ps: Seq<PostProcessProviderView>, id: Seq<char>) -> Option<
    PostProcessProviderView,
> {
    let i = first_pp_provider_index(ps, id);
    if i < ps.len() {
        Some(ps[i])
    } else {
        None
    }
}

/// What the post-processing module defines: its built-in providers with
/// their default models, its built-in prompts, the prompt selected on a new
/// installation, and the prompt that corrects a transcription.
pub struct PostProcessCatalog {
    pub providers: Vec<PostProcessProvider>,
    pub default_models: Vec<String>,
    pub prompts: Vec<LLMPrompt>,
    pub selected_prompt_id: Option<String>,
    pub correct_prompt_id: String,
}

impl PostProcessCatalog {
    /// Every built-in provider has a default model.
    pub open spec fn wf(&self) -> bool {
        self.providers@.len() == self.default_models@.len()
    }
}

/// Whether a prompt id is the id of a built-in prompt.
pub open spec fn spec_is_builtin_prompt(builtin: Seq<LLMPromptView>, id: Seq<char>) -> bool {
    exists|i: int| 0 <= i < builtin.len() && #[trigger] builtin[i].id == id
}

/// Whether `id` names one of the catalog's built-in prompts.
pub fn is_builtin_prompt(catalog: &PostProcessCatalog, id: &str) -> (r: bool)
    ensures
        r == spec_is_builtin_prompt(prompts_view(catalog.prompts@), id@),
{
    let n = catalog.prompts.len();
    for i in 0..n
        invariant
            n == catalog.prompts@.len(),
            forall|j: int| 0 <= j < i ==> catalog.prompts@[j].id@ != id@,
    {
        if str_eq(catalog.prompts[i].id.as_str(), id) {
            proof {
                assert(prompts_view(catalog.prompts@)[i as int].id == id@);
            }
            return true;
        }
    }
    proof {
        if spec_is_builtin_prompt(prompts_view(catalog.prompts@), id@) {
            let j = choose|j: int| 0 <= j < n && #[trigger] prompts_view(catalog.prompts@)[j].id == id@;
            assert(catalog.prompts@[j].id@ == id@);
        }
    }
    false
}

/// The prompts of a list that are not built in, in their order.
pub open spec fn custom_prompts(builtin: Seq<LLMPromptView>, stored: Seq<LLMPromptView>) -> Seq<LLMPromptView> {
    stored.filter(|p: LLMPromptView| !spec_is_builtin_prompt(builtin, p.id))
}

/// Copies of the prompts of a list that are not built in.
pub fn custom_prompts_of(catalog: &PostProcessCatalog, stored: &Vec<LLMPrompt>) -> (r: Vec<LLMPrompt>)
    ensures
        prompts_view(r@) == custom_prompts(prompts_view(catalog.prompts@), prompts_view(stored@)),
{
    let ghost builtin = prompts_view(catalog.prompts@);
    let ghost pred = |p: LLMPromptView| !spec_is_builtin_prompt(builtin, p.id);
    let mut r: Vec<LLMPrompt> = Vec::new();
    let n = stored.len();
    proof {
        assert(prompts_view(stored@).take(0) =~= Seq::<LLMPromptView>::empty());
        assert(prompts_view(r@) =~= prompts_view(stored@).take(0).filter(pred));
    }
    for i in 0..n
        invariant
            n == stored@.len(),
            builtin == prompts_view(catalog.prompts@),
            pred == (|p: LLMPromptView| !spec_is_builtin_prompt(builtin, p.id)),
            prompts_view(r@) == prompts_view(stored@).take(i as int).filter(pred),
    {
        let ghost sv = prompts_view(stored@);
        proof {
            reveal_with_fuel(Seq::<_>::filter, 1);
            assert(sv.take(i + 1).drop_last() =~= sv.take(i as int));
            assert(sv.take(i + 1).last() == stored@[i as int]@);
        }
        if !is_builtin_prompt(catalog, stored[i].id.as_str()) {
            r.push(stored[i].duplicate());
            proof {
                assert(prompts_view(r@) =~= prompts_view(stored@).take(i + 1).filter(pred));
            }
        } else {
            proof {
                assert(prompts_view(r@) =~= prompts_view(stored@).take(i + 1).filter(pred));
            }
        }
    }
    proof {
        assert(prompts_view(stored@).take(n as int) =~= prompts_view(stored@));
    }
    r
}

/// The built-in prompts followed by the stored prompts that are not built in.
#[verifier::opaque]
pub open spec fn spec_normalized_prompts(builtin: Seq<LLMPromptView>, stored: Seq<LLMPromptView>) -> Seq<
    LLMPromptView,
> {
    builtin + custom_prompts(builtin, stored)
}

/// Rebuilds the built-in prompts from the catalog and keeps the user's own.
pub fn normalized_prompts(catalog: &PostProcessCatalog, stored: &Vec<LLMPrompt>) -> (r: Vec<LLMPrompt>)
    ensures
        prompts_view(r@) == spec_normalized_prompts(prompts_view(catalog.prompts@), prompts_view(stored@)),
{
    reveal(spec_normalized_prompts);
    let mut r = default_post_process_prompts(catalog);
    let mut custom = custom_prompts_of(catalog, stored);
    let ghost a = prompts_view(r@);
    let ghost b = prompts_view(custom@);
    r.append(&mut custom);
    proof {
        assert(prompts_view(r@) =~= a + b);
    }
    r
}

/// Copies of the catalog's built-in prompts.
pub fn default_post_process_prompts(catalog: &PostProcessCatalog) -> (r: Vec<LLMPrompt>)
    ensures
        prompts_view(r@) == prompts_view(catalog.prompts@),
{
    let mut r: Vec<LLMPrompt> = Vec::new();
    let n = catalog.prompts.len();
    for i in 0..n
        invariant
            n == catalog.prompts@.len(),
            prompts_view(r@) == prompts_view(catalog.prompts@).take(i as int),
    {
        let ghost old_r = prompts_view(r@);
        let x = catalog.prompts[i].duplicate();
        let ghost xv = x@;
        r.push(x);
        proof {
            assert(prompts_view(r@) =~= old_r.push(xv));
            assert(prompts_view(catalog.prompts@).take(i + 1) =~= prompts_view(catalog.prompts@).take(i as int).push(catalog.prompts@[i as int]@));
        }
    }
    proof {
        assert(prompts_view(catalog.prompts@).take(n as int) =~= prompts_view(catalog.prompts@));
    }
    r
}

/// The prompt selected on a new installation.
pub fn default_post_process_selected_prompt_id(catalog: &PostProcessCatalog) -> (r: Option<String>)
    ensures
        r.deep_view() == catalog.selected_prompt_id.deep_view(),
{
    clone_opt_string(&catalog.selected_prompt_id)
}

/// Copies of a list of providers.
pub fn clone_pp_providers(ps: &Vec<PostProcessProvider>) -> (r: Vec<PostProcessProvider>)
    ensures
        pp_providers_view(r@) == pp_providers_view(ps@),
{
    let mut r: Vec<PostProcessProvider> = Vec::new();
    let n = ps.len();
    for i in 0..n
        invariant
            n == ps@.len(),
            pp_providers_view(r@) == pp_providers_view(ps@).take(i as int),
    {
        let ghost old_r = pp_providers_view(r@);
        let x = ps[i].duplicate();
        let ghost xv = x@;
        r.push(x);
        proof {
            assert(pp_providers_view(r@) =~= old_r.push(xv));
            assert(pp_providers_view(ps@).take(i + 1) =~= pp_providers_view(ps@).take(i as int).push(ps@[i as int]@));
        }
    }
    proof {
        assert(pp_providers_view(ps@).take(n as int) =~= pp_providers_view(ps@));
    }
    r
}

/// Copies of the catalog's built-in providers.
pub fn default_post_process_providers(catalog: &PostProcessCatalog) -> (r: Vec<PostProcessProvider>)
    ensures
        pp_providers_view(r@) == pp_providers_view(catalog.providers@),
{
    clone_pp_providers(&catalog.providers)
}

/// Whether two lists of providers hold the same providers in the same order.
pub fn same_pp_providers(a: &Vec<PostProcessProvider>, b: &Vec<PostProcessProvider>) -> (r: bool)
    ensures
        r == (pp_providers_view(a@) == pp_providers_view(b@)),
{
    if a.len() != b.len() {
        proof {
            assert(pp_providers_view(a@).len() != pp_providers_view(b@).len());
        }
        return false;
    }
    let n = a.len();
    for i in 0..n
        invariant
            n == a@.len(),
            n == b@.len(),
            forall|j: int| 0 <= j < i ==> a@[j]@ == b@[j]@,
    {
        if !a[i].same_as(&b[i]) {
            proof {
                assert(pp_providers_view(a@)[i as int] != pp_providers_view(b@)[i as int]);
            }
            return false;
        }
    }
    proof {
        assert(pp_providers_view(a@) =~= pp_providers_view(b@));
    }
    true
}

/// Whether two lists of prompts hold the same prompts in the same order.
pub fn same_prompts(a: &Vec<LLMPrompt>, b: &Vec<LLMPrompt>) -> (r: bool)
    ensures
        r == (prompts_view(a@) == prompts_view(b@)),
{
    if a.len() != b.len() {
        proof {
            assert(prompts_view(a@).len() != prompts_view(b@).len());
        }
        return false;
    }
    let n = a.len();
    for i in 0..n
        invariant
            n == a@.len(),
            n == b@.len(),
            forall|j: int| 0 <= j < i ==> a@[j]@ == b@[j]@,
    {
        if !a[i].same_as(&b[i]) {
            proof {
                assert(prompts_view(a@)[i as int] != prompts_view(b@)[i as int]);
            }
            return false;
        }
    }
    proof {
        assert(prompts_view(a@) =~= prompts_view(b@));
    }
    true
}

/// A provider with another base URL.
pub open spec fn with_base_url(p: PostProcessProviderView, url: Seq<char>) -> PostProcessProviderView {
    PostProcessProviderView { base_url: url, ..p }
}

/// The providers with the first provider of the id given the base URL, if a provider has the id.
pub open spec fn set_base_url(ps: Seq<PostProcessProviderView>, id: Seq<char>, url: Seq<char>) -> Seq<
    PostProcessProviderView,
> {
    let i = first_pp_provider_index(ps, id);
    if i < ps.len() {
        ps.update(i, with_base_url(ps[i], url))
    } else {
        ps
    }
}

/// The built-in providers, with the base URL of the stored custom provider where one was stored.
#[verifier::opaque]
pub open spec fn spec_normalized_pp_providers(
    defaults: Seq<PostProcessProviderView>,
    stored: Seq<PostProcessProviderView>,
) -> Seq<PostProcessProviderView> {
    match spec_find_pp_provider(stored, "custom"@) {
        Some(c) => set_base_url(defaults, "custom"@, c.base_url),
        None => defaults,
    }
}

/// Rebuilds the provider list from the catalog, keeping the base URL that the
/// user gave the custom provider.
pub fn normalized_post_process_providers(
    catalog: &PostProcessCatalog,
    stored_providers: &Vec<PostProcessProvider>,
) -> (r: Vec<PostProcessProvider>)
    ensures
        pp_providers_view(r@) == spec_normalized_pp_providers(
            pp_providers_view(catalog.providers@),
            pp_providers_view(stored_providers@),
        ),
{
    reveal(spec_normalized_pp_providers);
    let custom_base_url = match find_pp_provider(stored_providers, "custom") {
        Some(i) => Some(stored_providers[i].base_url.clone()),
        None => None,
    };
    let mut providers = default_post_process_providers(catalog);
    if let Some(url) = custom_base_url {
        if let Some(j) = find_pp_provider(&providers, "custom") {
            let mut p = providers[j].duplicate();
            p.base_url = url;
            let ghost before = pp_providers_view(providers@);
            providers.set(j, p);
            proof {
                assert(pp_providers_view(providers@) =~= before.update(j as int, with_base_url(before[j as int], p.base_url@)));
            }
        }
    }
    providers
}

/// The map from the id of each provider of a list to the value at the same place of another list.
pub open spec fn pp_provider_map(ps: Seq<PostProcessProviderView>, values: Seq<Seq<char>>) -> Map<
    Seq<char>,
    Seq<char>,
>
    decreases ps.len(),
{
    if ps.len() == 0 || values.len() == 0 {
        Map::empty()
    } else {
        pp_provider_map(ps.drop_last(), values.drop_last()).insert(ps.last().id, values.last())
    }
}

/// As many empty strings as there are providers.
pub open spec fn empty_values(n: nat) -> Seq<Seq<char>> {
    Seq::new(n, |i: int| Seq::<char>::empty())
}

/// An empty API key for every built-in post-processing provider.
pub fn default_post_process_api_keys(catalog: &PostProcessCatalog) -> (m: crate::str_map::StrMap<String>)
    ensures
        m@ == pp_provider_map(
            pp_providers_view(catalog.providers@),
            empty_values(catalog.providers@.len()),
        ),
{
    let mut m: crate::str_map::StrMap<String> = crate::str_map::StrMap::new();
    let n = catalog.providers.len();
    let ghost pv = pp_providers_view(catalog.providers@);
    let ghost ev = empty_values(n as nat);
    proof {
        assert(pp_provider_map(pv.take(0), ev.take(0)) =~= Map::<Seq<char>, Seq<char>>::empty());
    }
    for i in 0..n
        invariant
            n == catalog.providers@.len(),
            pv == pp_providers_view(catalog.providers@),
            ev == empty_values(n as nat),
            m@ == pp_provider_map(pv.take(i as int), ev.take(i as int)),
    {
        proof {
            assert(pv.take(i + 1).drop_last() =~= pv.take(i as int));
            assert(ev.take(i + 1).drop_last() =~= ev.take(i as int));
        }
        m.insert(catalog.providers[i].id.clone(), String::new());
        proof {
            assert(ev.take(i + 1).last() =~= Seq::<char>::empty());
        }
    }
    proof {
        assert(pv.take(n as int) =~= pv);
        assert(ev.take(n as int) =~= ev);
    }
    m
}

/// The default model of every built-in post-processing provider.
pub fn default_post_process_models(catalog: &PostProcessCatalog) -> (m: crate::str_map::StrMap<String>)
    requires
        catalog.wf(),
    ensures
        m@ == pp_provider_map(
            pp_providers_view(catalog.providers@),
            catalog.default_models@.map_values(|s: String| s@),
        ),
{
    let mut m: crate::str_map::StrMap<String> = crate::str_map::StrMap::new();
    let n = catalog.providers.len();
    let ghost pv = pp_providers_view(catalog.providers@);
    let ghost ev = catalog.default_models@.map_values(|s: String| s@);
    proof {
        assert(pp_provider_map(pv.take(0), ev.take(0)) =~= Map::<Seq<char>, Seq<char>>::empty());
    }
    for i in 0..n
        invariant
            n == catalog.providers@.len(),
            n == catalog.default_models@.len(),
            pv == pp_providers_view(catalog.providers@),
            ev == catalog.default_models@.map_values(|s: String| s@),
            m@ == pp_provider_map(pv.take(i as int), ev.take(i as int)),
    {
        proof {
            assert(pv.take(i + 1).drop_last() =~= pv.take(i as int));
            assert(ev.take(i + 1).drop_last() =~= ev.take(i as int));
        }
        m.insert(catalog.providers[i].id.clone(), catalog.default_models[i].clone());
    }
    proof {
        assert(pv.take(n as int) =~= pv);
        assert(ev.take(n as int) =~= ev);
    }
    m
}

/// A filter that keeps every element keeps the list as it is.
proof fn lemma_filter_keeps_all(s: Seq<LLMPromptView>, pred: spec_fn(LLMPromptView) -> bool)
    requires
        forall|i: int| 0 <= i < s.len() ==> pred(#[trigger] s[i]),
    ensures
        s.filter(pred) == s,
    decreases s.len(),
{
    reveal(Seq::filter);
    if s.len() > 0 {
        lemma_filter_keeps_all(s.drop_last(), pred);
        assert(s.drop_last().push(s.last()) =~= s);
    }
}

/// A filter that drops every element leaves nothing.
proof fn lemma_filter_drops_all(s: Seq<LLMPromptView>, pred: spec_fn(LLMPromptView) -> bool)
    requires
        forall|i: int| 0 <= i < s.len() ==> !pred(#[trigger] s[i]),
    ensures
        s.filter(pred) == Seq::<LLMPromptView>::empty(),
    decreases s.len(),
{
    reveal(Seq::filter);
    if s.len() > 0 {
        lemma_filter_drops_all(s.drop_last(), pred);
    }
}

/// Normalising the prompts a second time changes nothing: the built-in
/// prompts are rebuilt as they are, and the user's own are kept in order.
pub proof fn lemma_normalized_prompts_idempotent(builtin: Seq<LLMPromptView>, stored: Seq<LLMPromptView>)
    ensures
        spec_normalized_prompts(builtin, spec_normalized_prompts(builtin, stored)) == spec_normalized_prompts(
            builtin,
            stored,
        ),
{
    reveal(spec_normalized_prompts);
    let pred = |p: LLMPromptView| !spec_is_builtin_prompt(builtin, p.id);
    let c = custom_prompts(builtin, stored);
    Seq::filter_distributes_over_add(builtin, c, pred);
    assert forall|i: int| 0 <= i < builtin.len() implies !pred(#[trigger] builtin[i]) by {
        assert(spec_is_builtin_prompt(builtin, builtin[i].id));
    }
    lemma_filter_drops_all(builtin, pred);
    assert forall|i: int| 0 <= i < c.len() implies pred(#[trigger] c[i]) by {
        stored.lemma_filter_pred(pred, i);
    }
    lemma_filter_keeps_all(c, pred);
    assert(Seq::<LLMPromptView>::empty() + c =~= c);
}

/// Giving the first provider of an id a base URL keeps that provider first,
/// with the new URL.
pub proof fn lemma_set_base_url_found(ps: Seq<PostProcessProviderView>, id: Seq<char>, url: Seq<char>)
    ensures
        spec_find_pp_provider(set_base_url(ps, id, url), id) == match spec_find_pp_provider(ps, id) {
            Some(p) => Some(with_base_url(p, url)),
            None => None,
        },
{
    lemma_first_pp_provider_index(ps, id);
    let i = first_pp_provider_index(ps, id);
    let t = set_base_url(ps, id, url);
    assert forall|j: int| 0 <= j < i implies t[j].id != id by {
        assert(t[j] == ps[j]);
    }
    lemma_first_pp_provider_index_unique(t, id, i);
}

/// Rebuilding the provider list a second time changes nothing: the built-in
/// providers come back with the custom provider's URL that the first rebuild
/// kept.
pub proof fn lemma_normalized_pp_providers_idempotent(
    defaults: Seq<PostProcessProviderView>,
    stored: Seq<PostProcessProviderView>,
)
    ensures
        spec_normalized_pp_providers(defaults, spec_normalized_pp_providers(defaults, stored))
            == spec_normalized_pp_providers(defaults, stored),
{
    reveal(spec_normalized_pp_providers);
    let n = spec_normalized_pp_providers(defaults, stored);
    lemma_first_pp_provider_index(defaults, "custom"@);
    match spec_find_pp_provider(stored, "custom"@) {
        Some(c) => {
            lemma_set_base_url_found(defaults, "custom"@, c.base_url);
        },
        None => {
            let i = first_pp_provider_index(defaults, "custom"@);
            if i < defaults.len() {
                assert(set_base_url(defaults, "custom"@, defaults[i].base_url) =~= defaults);
            }
        },
    }
}

/// Taking the custom prompts of a list of custom prompts keeps them all.
pub proof fn lemma_custom_prompts_idempotent(builtin: Seq<LLMPromptView>, stored: Seq<LLMPromptView>)
    ensures
        custom_prompts(builtin, custom_prompts(builtin, stored)) == custom_prompts(builtin, stored),
{
    let pred = |p: LLMPromptView| !spec_is_builtin_prompt(builtin, p.id);
    let c = custom_prompts(builtin, stored);
    assert forall|i: int| 0 <= i < c.len() implies pred(#[trigger] c[i]) by {
        stored.lemma_filter_pred(pred, i);
    }
    lemma_filter_keeps_all(c, pred);
}

/// Giving a provider a base URL keeps every id at its place, so every id is
/// found at the same index.
pub proof fn lemma_set_base_url_keeps_ids(ps: Seq<PostProcessProviderView>, id: Seq<char>, url: Seq<char>, k: Seq<char>)
    ensures
        first_pp_provider_index(set_base_url(ps, id, url), k) == first_pp_provider_index(ps, k),
        set_base_url(ps, id, url).len() == ps.len(),
{
    lemma_first_pp_provider_index(ps, k);
    lemma_first_pp_provider_index(ps, id);
    let t = set_base_url(ps, id, url);
    let f = first_pp_provider_index(ps, k);
    assert forall|j: int| 0 <= j < f implies t[j].id != k by {
        assert(t[j].id == ps[j].id);
    }
    if f < ps.len() {
        assert(t[f].id == ps[f].id);
    }
    lemma_first_pp_provider_index_unique(t, k, f);
}

} // verus!
