//! The local model registry: models served to the network, keyed by their id,
//! and the commands that list, show, register and remove them.
use vstd::prelude::*;
use crate::api_error::{ApiError, ApiErrorView};
use crate::output::{Output, OutputView, outputs_view, pairs_view, result_view, rows_view};
use crate::text::{
    concat, decimal, decimal_string, has_infix, join, join_strings, push_all, str_contains,
    str_eq, views,
};

verus! {

broadcast use vstd::string::group_string_axioms;

/// A model the node can serve, with its prices per million tokens in nCompute.
pub struct ModelInfo {
    pub id: String,
    pub base_model: Option<String>,
    pub context_length: u32,
    pub input_price_per_million: u128,
    pub output_price_per_million: u128,
    pub capabilities: Vec<String>,
}

/// The mathematical content of a [`ModelInfo`].
pub struct ModelView {
    pub id: Seq<char>,
    pub base_model: Option<Seq<char>>,
    pub context_length: u32,
    pub input_price: u128,
    pub output_price: u128,
    pub capabilities: Seq<Seq<char>>,
}

impl View for ModelInfo {
    type V = ModelView;

    open spec fn view(&self) -> ModelView {
        ModelView {
            id: self.id@,
            base_model: match self.base_model {
                Some(b) => Some(b@),
                None => None,
            },
            context_length: self.context_length,
            input_price: self.input_price_per_million,
            output_price: self.output_price_per_million,
            capabilities: views(self.capabilities@),
        }
    }
}

/// The views of a list of models.
pub open spec fn model_views(v: Seq<ModelInfo>) -> Seq<ModelView> {
    v.map_values(|m: ModelInfo| m@)
}

/// The last position of a model with this id, or -1.
pub open spec fn index_of(s: Seq<ModelView>, id: Seq<char>) -> int
    decreases s.len(),
{
    if s.len() == 0 {
        -1
    } else if s.last().id == id {
        s.len() - 1
    } else {
        index_of(s.drop_last(), id)
    }
}

/// The model registered under an id, if any.
pub open spec fn lookup(s: Seq<ModelView>, id: Seq<char>) -> Option<ModelView> {
    let i = index_of(s, id);
    if i >= 0 { Some(s[i]) } else { None }
}

/// No two models share an id.
pub open spec fn distinct_ids(s: Seq<ModelView>) -> bool {
    forall|i: int, j: int| 0 <= i < j < s.len() ==> s[i].id != s[j].id
}

/// The models after registering `m`: it replaces the model with its id, or
/// is added at the end.
pub open spec fn after_put(s: Seq<ModelView>, m: ModelView) -> Seq<ModelView> {
    let i = index_of(s, m.id);
    if i >= 0 { s.update(i, m) } else { s.push(m) }
}

/// The models after removing the one with id `id`, if any.
pub open spec fn after_remove(s: Seq<ModelView>, id: Seq<char>) -> Seq<ModelView> {
    let i = index_of(s, id);
    if i >= 0 { s.remove(i) } else { s }
}

proof fn lemma_index_of(s: Seq<ModelView>, id: Seq<char>)
    ensures
        -1 <= index_of(s, id) < s.len(),
        index_of(s, id) == -1 ==> forall|i: int| 0 <= i < s.len() ==> s[i].id != id,
        index_of(s, id) >= 0 ==> s[index_of(s, id)].id == id,
        forall|j: int| index_of(s, id) < j < s.len() ==> s[j].id != id,
    decreases s.len(),
{
    if s.len() > 0 {
        lemma_index_of(s.drop_last(), id);
        assert forall|i: int| 0 <= i < s.len() - 1 implies s.drop_last()[i] == s[i] by {}
    }
}

proof fn lemma_index_is(s: Seq<ModelView>, id: Seq<char>, x: int)
    requires
        -1 <= x < s.len(),
        x >= 0 ==> s[x].id == id,
        forall|j: int| x < j < s.len() ==> s[j].id != id,
    ensures
        index_of(s, id) == x,
{
    lemma_index_of(s, id);
    let k = index_of(s, id);
    if k > x {
        assert(s[k].id != id);
    } else if k < x {
        assert(s[x].id != id);
    }
}

/// Registering a model makes it the one found under its id, leaves every
/// other id as it was, and keeps ids distinct.
pub proof fn law_put_then_lookup(s: Seq<ModelView>, m: ModelView, k: Seq<char>)
    requires
        distinct_ids(s),
    ensures
        distinct_ids(after_put(s, m)),
        lookup(after_put(s, m), k) == (if k == m.id { Some(m) } else { lookup(s, k) }),
{
    lemma_index_of(s, m.id);
    lemma_index_of(s, k);
    let i = index_of(s, m.id);
    let t = after_put(s, m);
    if i >= 0 {
        assert forall|a: int, b: int| 0 <= a < b < t.len() implies t[a].id != t[b].id by {
            assert(t[a].id == s[a].id && t[b].id == s[b].id);
        }
        if k == m.id {
            lemma_index_is(t, k, i);
        } else {
            lemma_index_is(t, k, index_of(s, k));
            if index_of(s, k) >= 0 {
                assert(index_of(s, k) != i);
            }
        }
    } else {
        assert forall|a: int, b: int| 0 <= a < b < t.len() implies t[a].id != t[b].id by {
            if b == s.len() {
                assert(s[a].id != m.id);
            }
        }
        if k == m.id {
            lemma_index_is(t, k, s.len() as int);
        } else {
            lemma_index_is(t, k, index_of(s, k));
        }
    }
}

/// Removing a model leaves nothing under its id, leaves every other id as it
/// was, and keeps ids distinct.
pub proof fn law_remove_then_lookup(s: Seq<ModelView>, id: Seq<char>, k: Seq<char>)
    requires
        distinct_ids(s),
    ensures
        distinct_ids(after_remove(s, id)),
        lookup(after_remove(s, id), k) == (if k == id { None } else { lookup(s, k) }),
{
    lemma_index_of(s, id);
    lemma_index_of(s, k);
    let i = index_of(s, id);
    let t = after_remove(s, id);
    if i >= 0 {
        assert forall|a: int| 0 <= a < t.len() implies #[trigger] t[a] == (if a < i { s[a] } else { s[a + 1] }) by {}
        assert forall|a: int, b: int| 0 <= a < b < t.len() implies t[a].id != t[b].id by {
            if a < i {
                if b < i {
                } else {
                    assert(s[a].id != s[b + 1].id);
                }
            } else {
                assert(s[a + 1].id != s[b + 1].id);
            }
        }
        if k == id {
            assert forall|a: int| 0 <= a < t.len() implies t[a].id != k by {
                if a < i {
                    assert(s[a].id != s[i].id);
                } else {
                    assert(s[a + 1].id != s[i].id);
                }
            }
            lemma_index_is(t, k, -1);
        } else {
            let j = index_of(s, k);
            if j >= 0 {
                let x = if j < i { j } else { j - 1 };
                assert(j != i);
                assert forall|b: int| x < b < t.len() implies t[b].id != k by {
                    if b < i {
                        assert(s[b].id != k);
                    } else {
                        assert(s[b + 1].id != k);
                    }
                }
                lemma_index_is(t, k, x);
            } else {
                assert forall|b: int| -1 < b < t.len() implies t[b].id != k by {
                    if b < i {
                        assert(s[b].id != k);
                    } else {
                        assert(s[b + 1].id != k);
                    }
                }
                lemma_index_is(t, k, -1);
            }
        }
    } else {
        lemma_index_is(t, k, index_of(s, k));
    }
}

/// The models registered on this node, keyed by id.
pub struct ModelRegistry {
    models: Vec<ModelInfo>,
}

impl View for ModelRegistry {
    type V = Seq<ModelView>;

    closed spec fn view(&self) -> Seq<ModelView> {
        model_views(self.models@)
    }
}

impl ModelRegistry {
    /// Every registry keeps its ids distinct.
    pub closed spec fn wf(&self) -> bool {
        distinct_ids(self@)
    }

    /// An empty registry.
    pub fn new() -> (r: Self)
        ensures
            r.wf(),
            r@ == Seq::<ModelView>::empty(),
    {
        let r = ModelRegistry { models: Vec::new() };
        assert(r@ =~= Seq::<ModelView>::empty());
        r
    }

    /// The position of the model with this id, if any.
    fn find(&self, id: &str) -> (r: Option<usize>)
        requires
            self.wf(),
        ensures
            match r {
                Some(i) => i == index_of(self@, id@) && i < self@.len(),
                None => index_of(self@, id@) == -1,
            },
    {
        proof {
            lemma_index_of(self@, id@);
        }
        let mut i: usize = self.models.len();
        while i > 0
            invariant
                i <= self.models@.len(),
                self@ == model_views(self.models@),
                forall|j: int| i <= j < self@.len() ==> self@[j].id != id@,
            decreases i,
        {
            if str_eq(self.models[i - 1].id.as_str(), id) {
                proof {
                    lemma_index_is(self@, id@, i - 1);
                }
                return Some(i - 1);
            }
            i = i - 1;
        }
        proof {
            lemma_index_is(self@, id@, -1);
        }
        None
    }

    /// The model registered under `id`, if any.
    pub fn get(&self, id: &str) -> (r: Option<&ModelInfo>)
        requires
            self.wf(),
        ensures
            match r {
                Some(m) => lookup(self@, id@) == Some(m@),
                None => lookup(self@, id@) is None,
            },
    {
        match self.find(id) {
            Some(i) => Some(&self.models[i]),
            None => None,
        }
    }

    /// The registered models, in order.
    pub fn models(&self) -> (v: &Vec<ModelInfo>)
        ensures
            model_views(v@) == self@,
    {
        &self.models
    }

    /// Registers `m`, replacing any model with the same id.
    pub fn put(&mut self, m: ModelInfo)
        requires
            old(self).wf(),
        ensures
            final(self).wf(),
            final(self)@ == after_put(old(self)@, m@),
    {
        proof {
            law_put_then_lookup(self@, m@, m@.id);
        }
        match self.find(m.id.as_str()) {
            Some(i) => {
                let ghost mv = m@;
                self.models.set(i, m);
                assert(self@ =~= after_put(old(self)@, mv));
            },
            None => {
                let ghost mv = m@;
                self.models.push(m);
                assert(self@ =~= after_put(old(self)@, mv));
            },
        }
    }

    /// Removes the model registered under `id`; says whether there was one.
    pub fn remove(&mut self, id: &str) -> (found: bool)
        requires
            old(self).wf(),
        ensures
            final(self).wf(),
            final(self)@ == after_remove(old(self)@, id@),
            found == lookup(old(self)@, id@) is Some,
    {
        proof {
            law_remove_then_lookup(self@, id@, id@);
        }
        match self.find(id) {
            Some(i) => {
                self.models.remove(i);
                assert(self@ =~= after_remove(old(self)@, id@));
                true
            },
            None => false,
        }
    }

    /// A registry holding `models`, registered in order (a later model
    /// replaces an earlier one with the same id).
    pub fn from_models(models: &Vec<ModelInfo>) -> (r: Self)
        ensures
            r.wf(),
            forall|k: Seq<char>| lookup(r@, k) == lookup(model_views(models@), k),
    {
        let mut r = ModelRegistry::new();
        let ghost all = model_views(models@);
        let mut i: usize = 0;
        while i < models.len()
            invariant
                i <= models@.len(),
                all == model_views(models@),
                r.wf(),
                forall|k: Seq<char>| lookup(r@, k) == lookup(all.take(i as int), k),
            decreases models.len() - i,
        {
            let m = clone_model(&models[i]);
            let ghost mv = m@;
            let ghost done = all.take(i as int);
            assert(all.take(i as int + 1) =~= done.push(mv));
            proof {
                assert forall|k: Seq<char>| lookup(after_put(r@, mv), k) == lookup(done.push(mv), k) by {
                    law_put_then_lookup(r@, mv, k);
                    lemma_index_of(done.push(mv), k);
                    if k != mv.id {
                        assert(done.push(mv).drop_last() =~= done);
                    }
                }
            }
            r.put(m);
            i = i + 1;
        }
        assert(all.take(models@.len() as int) =~= all);
        r
    }
}

fn clone_strings(v: &Vec<String>) -> (r: Vec<String>)
    ensures
        views(r@) == views(v@),
{
    let mut r: Vec<String> = Vec::new();
    let mut i: usize = 0;
    while i < v.len()
        invariant
            i <= v@.len(),
            views(r@) == views(v@).take(i as int),
        decreases v.len() - i,
    {
        let ghost before = r@;
        let item = v[i].clone();
        r.push(item);
        assert(views(r@) =~= views(before).push(v@[i as int]@));
        assert(views(r@) =~= views(v@).take(i as int + 1));
        i = i + 1;
    }
    assert(views(v@).take(v@.len() as int) =~= views(v@));
    r
}

/// A copy of a model.
pub fn clone_model(m: &ModelInfo) -> (r: ModelInfo)
    ensures
        r@ == m@,
{
    ModelInfo {
        id: m.id.clone(),
        base_model: match &m.base_model {
            Some(b) => Some(b.clone()),
            None => None,
        },
        context_length: m.context_length,
        input_price_per_million: m.input_price_per_million,
        output_price_per_million: m.output_price_per_million,
        capabilities: clone_strings(&m.capabilities),
    }
}


// ---------------------------------------------------------------------------
// Commands
// ---------------------------------------------------------------------------

/// The model commands of the command line.
pub enum ModelCommands {
    /// List the registered models, optionally only those whose id contains `provider`.
    List { provider: Option<String> },
    /// Show one model.
    Show { model_id: String },
    /// Register a model file under a name.
    Push { path: String, name: String },
    /// Remove a model.
    Rm { model_id: String },
}

/// `a + b`, or `u128::MAX` when the sum does not fit.
pub open spec fn total_price(m: ModelView) -> u128 {
    if m.input_price + m.output_price > u128::MAX { u128::MAX } else { (m.input_price + m.output_price) as u128 }
}

/// A price as it is shown.
pub open spec fn price_text(p: u128) -> Seq<char> {
    decimal(p as nat) + " nCompute"@
}

fn price_string(p: u128) -> (s: String)
    ensures
        s@ == price_text(p),
{
    let mut s = decimal_string(p);
    push_all(&mut s, " nCompute");
    s
}

/// The base model as it is shown: its name, or a dash.
pub open spec fn base_text(m: ModelView) -> Seq<char> {
    match m.base_model {
        Some(b) => b,
        None => "—"@,
    }
}

/// The row a listing shows for a model.
pub open spec fn model_row(m: ModelView) -> Seq<Seq<char>> {
    seq![
        m.id,
        base_text(m),
        decimal(m.context_length as nat),
        price_text(m.input_price),
        price_text(m.output_price),
        join(m.capabilities, ", "@),
    ]
}

/// The models whose id contains `p`, in order.
pub open spec fn matching(s: Seq<ModelView>, p: Seq<char>) -> Seq<ModelView>
    decreases s.len(),
{
    if s.len() == 0 {
        Seq::empty()
    } else {
        let rest = matching(s.drop_last(), p);
        if has_infix(s.last().id, p) { rest.push(s.last()) } else { rest }
    }
}

pub open spec fn model_headers() -> Seq<Seq<char>> {
    seq!["Model ID"@, "Base Model"@, "Context"@, "Input/MTok"@, "Output/MTok"@, "Capabilities"@]
}

/// What listing gives.
pub open spec fn list_result(s: Seq<ModelView>, provider: Option<Seq<char>>) -> Seq<OutputView> {
    if s.len() == 0 {
        seq![OutputView::Status("No models registered — use `agnetd model push` to add one"@)]
    } else {
        let shown = match provider {
            Some(p) => matching(s, p),
            None => s,
        };
        if shown.len() == 0 {
            seq![OutputView::Status("No models found matching filter"@)]
        } else {
            seq![OutputView::Table { headers: model_headers(), rows: shown.map_values(|m: ModelView| model_row(m)) }]
        }
    }
}

/// The labelled fields shown for a model.
pub open spec fn model_pairs(m: ModelView) -> Seq<(Seq<char>, Seq<char>)> {
    seq![
        ("Model ID"@, m.id),
        ("Base Model"@, base_text(m)),
        ("Context Length"@, decimal(m.context_length as nat)),
        ("Input Price/MTok"@, price_text(m.input_price)),
        ("Output Price/MTok"@, price_text(m.output_price)),
        ("Total Price/MTok"@, price_text(total_price(m))),
        ("Capabilities"@, join(m.capabilities, ", "@)),
    ]
}

/// The message for a model id that is not registered.
pub open spec fn missing_text(id: Seq<char>) -> Seq<char> {
    "model not found: "@ + id
}

/// The model a push registers under `name`.
pub open spec fn pushed_model(name: Seq<char>) -> ModelView {
    ModelView {
        id: name,
        base_model: None,
        context_length: 4096,
        input_price: 100,
        output_price: 200,
        capabilities: seq!["chat"@],
    }
}

/// What a push shows.
pub open spec fn push_outputs(path: Seq<char>, name: Seq<char>) -> Seq<OutputView> {
    seq![
        OutputView::Pairs(seq![
            ("Status"@, "registered"@),
            ("Model ID"@, name),
            ("Source"@, path),
            ("Context Length"@, "4096"@),
            ("Input Price/MTok"@, "100 nCompute"@),
            ("Output Price/MTok"@, "200 nCompute"@),
        ]),
        OutputView::Status("Model '"@ + name + "' registered from "@ + path),
    ]
}

/// What a model command shows, or its error, on the registry `s`.
pub open spec fn command_result(cmd: ModelCommands, s: Seq<ModelView>) -> Result<Seq<OutputView>, Seq<char>> {
    match cmd {
        ModelCommands::List { provider } => Ok(list_result(s, match provider { Some(p) => Some(p@), None => None })),
        ModelCommands::Show { model_id } => match lookup(s, model_id@) {
            Some(m) => Ok(seq![OutputView::Pairs(model_pairs(m))]),
            None => Err(missing_text(model_id@)),
        },
        ModelCommands::Push { path, name } => Ok(push_outputs(path@, name@)),
        ModelCommands::Rm { model_id } => match lookup(s, model_id@) {
            Some(_) => Ok(seq![
                OutputView::Status("Removed model "@ + model_id@),
                OutputView::Object(seq![("action"@, "remove"@), ("model_id"@, model_id@), ("status"@, "removed"@)]),
            ]),
            None => Err(missing_text(model_id@)),
        },
    }
}

/// The registry after a model command.
pub open spec fn command_state(cmd: ModelCommands, s: Seq<ModelView>) -> Seq<ModelView> {
    match cmd {
        ModelCommands::Push { path, name } => after_put(s, pushed_model(name@)),
        ModelCommands::Rm { model_id } => after_remove(s, model_id@),
        _ => s,
    }
}

fn model_row_exec(m: &ModelInfo) -> (r: Vec<String>)
    ensures
        views(r@) == model_row(m@),
{
    let mut r: Vec<String> = Vec::new();
    r.push(m.id.clone());
    r.push(match &m.base_model {
        Some(b) => b.clone(),
        None => "—".to_string(),
    });
    r.push(decimal_string(m.context_length as u128));
    r.push(price_string(m.input_price_per_million));
    r.push(price_string(m.output_price_per_million));
    r.push(join_strings(&m.capabilities, ", "));
    assert(views(r@) =~= model_row(m@));
    r
}

fn model_list(provider: Option<&str>, reg: &ModelRegistry) -> (out: Vec<Output>)
    requires
        reg.wf(),
    ensures
        outputs_view(out@) == list_result(reg@, match provider { Some(p) => Some(p@), None => None }),
{
    let models = reg.models();
    let ghost s = reg@;
    let ghost pv: Option<Seq<char>> = match provider { Some(p) => Some(p@), None => None };
    let mut out: Vec<Output> = Vec::new();
    if models.len() == 0 {
        out.push(Output::Status("No models registered — use `agnetd model push` to add one".to_string()));
        assert(outputs_view(out@) =~= list_result(s, pv));
        return out;
    }
    let mut rows: Vec<Vec<String>> = Vec::new();
    let mut i: usize = 0;
    while i < models.len()
        invariant
            i <= models@.len(),
            model_views(models@) == s,
            pv == (match provider { Some(p) => Some(p@), None => None::<Seq<char>> }),
            rows_view(rows@) == (match pv { Some(p) => matching(s.take(i as int), p), None => s.take(i as int) }).map_values(
                |m: ModelView| model_row(m),
            ),
        decreases models.len() - i,
    {
        let m = &models[i];
        let ghost before = match pv { Some(p) => matching(s.take(i as int), p), None => s.take(i as int) };
        proof {
            assert(s.take(i as int + 1).drop_last() =~= s.take(i as int));
            assert(s.take(i as int + 1) =~= s.take(i as int).push(m@));
        }
        let keep = match provider {
            Some(p) => str_contains(m.id.as_str(), p),
            None => true,
        };
        if keep {
            let ghost old_rows = rows@;
            let row = model_row_exec(m);
            rows.push(row);
            proof {
                let after = before.push(m@);
                assert(rows_view(rows@) =~= rows_view(old_rows).push(views(row@)));
                assert(after.map_values(|m: ModelView| model_row(m)) =~= before.map_values(|m: ModelView| model_row(m)).push(
                    model_row(m@),
                ));
            }
        }
        i = i + 1;
    }
    proof {
        assert(s.take(models@.len() as int) =~= s);
    }
    if rows.len() == 0 {
        out.push(Output::Status("No models found matching filter".to_string()));
        assert(outputs_view(out@) =~= list_result(s, pv));
    } else {
        let mut headers: Vec<String> = Vec::new();
        headers.push("Model ID".to_string());
        headers.push("Base Model".to_string());
        headers.push("Context".to_string());
        headers.push("Input/MTok".to_string());
        headers.push("Output/MTok".to_string());
        headers.push("Capabilities".to_string());
        assert(views(headers@) =~= model_headers());
        out.push(Output::Table { headers, rows });
        assert(outputs_view(out@) =~= list_result(s, pv));
    }
    out
}

fn missing(id: &str) -> (m: String)
    ensures
        m@ == missing_text(id@),
{
    concat("model not found: ", id)
}

fn model_show(model_id: &str, reg: &ModelRegistry) -> (r: Result<Vec<Output>, String>)
    requires
        reg.wf(),
    ensures
        result_view(r) == (match lookup(reg@, model_id@) {
            Some(m) => Ok::<Seq<OutputView>, Seq<char>>(seq![OutputView::Pairs(model_pairs(m))]),
            None => Err::<Seq<OutputView>, Seq<char>>(missing_text(model_id@)),
        }),
{
    match reg.get(model_id) {
        None => Err(missing(model_id)),
        Some(m) => {
            let total: u128 = m.input_price_per_million.saturating_add(m.output_price_per_million);
            let mut p: Vec<(String, String)> = Vec::new();
            p.push(("Model ID".to_string(), m.id.clone()));
            p.push((
                "Base Model".to_string(),
                match &m.base_model {
                    Some(b) => b.clone(),
                    None => "—".to_string(),
                },
            ));
            p.push(("Context Length".to_string(), decimal_string(m.context_length as u128)));
            p.push(("Input Price/MTok".to_string(), price_string(m.input_price_per_million)));
            p.push(("Output Price/MTok".to_string(), price_string(m.output_price_per_million)));
            p.push(("Total Price/MTok".to_string(), price_string(total)));
            p.push(("Capabilities".to_string(), join_strings(&m.capabilities, ", ")));
            let mut out: Vec<Output> = Vec::new();
            out.push(Output::Pairs(p));
            proof {
                assert(pairs_view(p@) =~= model_pairs(m@));
                assert(outputs_view(out@) =~= seq![OutputView::Pairs(model_pairs(m@))]);
            }
            Ok(out)
        },
    }
}

/// Runs a model command on the registry.
pub fn execute(cmd: &ModelCommands, reg: &mut ModelRegistry) -> (r: Result<Vec<Output>, String>)
    requires
        old(reg).wf(),
    ensures
        final(reg).wf(),
        result_view(r) == command_result(*cmd, old(reg)@),
        final(reg)@ == command_state(*cmd, old(reg)@),
{
    match cmd {
        ModelCommands::List { provider } => {
            let p: Option<&str> = match provider {
                Some(x) => Some(x.as_str()),
                None => None,
            };
            Ok(model_list(p, reg))
        },
        ModelCommands::Show { model_id } => model_show(model_id.as_str(), reg),
        ModelCommands::Push { path, name } => {
            let mut caps: Vec<String> = Vec::new();
            caps.push("chat".to_string());
            let m = ModelInfo {
                id: name.clone(),
                base_model: None,
                context_length: 4096,
                input_price_per_million: 100,
                output_price_per_million: 200,
                capabilities: caps,
            };
            assert(m@ == pushed_model(name@)) by {
                assert(views(m.capabilities@) =~= seq!["chat"@]);
            }
            reg.put(m);
            let mut p: Vec<(String, String)> = Vec::new();
            p.push(("Status".to_string(), "registered".to_string()));
            p.push(("Model ID".to_string(), name.clone()));
            p.push(("Source".to_string(), path.clone()));
            p.push(("Context Length".to_string(), "4096".to_string()));
            p.push(("Input Price/MTok".to_string(), "100 nCompute".to_string()));
            p.push(("Output Price/MTok".to_string(), "200 nCompute".to_string()));
            let mut msg = concat("Model '", name.as_str());
            push_all(&mut msg, "' registered from ");
            push_all(&mut msg, path.as_str());
            let mut out: Vec<Output> = Vec::new();
            out.push(Output::Pairs(p));
            out.push(Output::Status(msg));
            assert(pairs_view(p@) =~= seq![
                ("Status"@, "registered"@),
                ("Model ID"@, name@),
                ("Source"@, path@),
                ("Context Length"@, "4096"@),
                ("Input Price/MTok"@, "100 nCompute"@),
                ("Output Price/MTok"@, "200 nCompute"@),
            ]);
            assert(outputs_view(out@) =~= push_outputs(path@, name@));
            Ok(out)
        },
        ModelCommands::Rm { model_id } => {
            if reg.remove(model_id.as_str()) {
                let mut o: Vec<(String, String)> = Vec::new();
                o.push(("action".to_string(), "remove".to_string()));
                o.push(("model_id".to_string(), model_id.clone()));
                o.push(("status".to_string(), "removed".to_string()));
                let mut out: Vec<Output> = Vec::new();
                out.push(Output::Status(concat("Removed model ", model_id.as_str())));
                out.push(Output::Object(o));
                assert(pairs_view(o@) =~= seq![("action"@, "remove"@), ("model_id"@, model_id@), ("status"@, "removed"@)]);
                assert(outputs_view(out@) =~= command_result(*cmd, old(reg)@)->Ok_0);
                Ok(out)
            } else {
                Err(missing(model_id.as_str()))
            }
        },
    }
}

/// A pushed model can be shown at once, under the name it was pushed with.
pub proof fn law_push_then_show(s: Seq<ModelView>, path: String, name: String)
    requires
        distinct_ids(s),
    ensures
        command_result(ModelCommands::Show { model_id: name }, command_state(ModelCommands::Push { path, name }, s))
            == Ok::<Seq<OutputView>, Seq<char>>(seq![OutputView::Pairs(model_pairs(pushed_model(name@)))]),
{
    law_put_then_lookup(s, pushed_model(name@), name@);
}

/// A removed model can no longer be shown.
pub proof fn law_remove_then_show(s: Seq<ModelView>, id: String)
    requires
        distinct_ids(s),
    ensures
        command_result(ModelCommands::Show { model_id: id }, command_state(ModelCommands::Rm { model_id: id }, s))
            == Err::<Seq<OutputView>, Seq<char>>(missing_text(id@)),
{
    law_remove_then_lookup(s, id@, id@);
}

/// Removing a model that is not registered is refused with "model not
/// found" and leaves the registry as it was.
pub proof fn law_remove_missing_is_refused(s: Seq<ModelView>, id: String)
    requires
        lookup(s, id@) is None,
    ensures
        command_result(ModelCommands::Rm { model_id: id }, s) == Err::<Seq<OutputView>, Seq<char>>(
            missing_text(id@),
        ),
        command_state(ModelCommands::Rm { model_id: id }, s) == s,
{
}

/// Pushing two models with different names into an empty registry and then
/// removing the first leaves exactly the second.
pub proof fn law_push_two_remove_first(pa: String, a: String, pb: String, b: String)
    requires
        a@ != b@,
    ensures
        ({
            let s1 = command_state(ModelCommands::Push { path: pa, name: a }, Seq::empty());
            let s2 = command_state(ModelCommands::Push { path: pb, name: b }, s1);
            &&& command_result(ModelCommands::Rm { model_id: a }, s2) is Ok
            &&& command_state(ModelCommands::Rm { model_id: a }, s2) == seq![pushed_model(b@)]
        }),
{
    let e = Seq::<ModelView>::empty();
    let s1 = after_put(e, pushed_model(a@));
    assert(index_of(e, a@) == -1);
    assert(s1 =~= seq![pushed_model(a@)]);
    lemma_index_is(s1, b@, -1);
    let s2 = after_put(s1, pushed_model(b@));
    assert(s2 =~= seq![pushed_model(a@), pushed_model(b@)]);
    lemma_index_is(s2, a@, 0);
    assert(after_remove(s2, a@) =~= seq![pushed_model(b@)]);
}


// ---------------------------------------------------------------------------
// HTTP API
// ---------------------------------------------------------------------------

/// The body of a request that registers a model.
pub struct PushModelRequest {
    pub path: String,
    pub name: String,
}

/// The filter of a model listing.
pub struct ModelsQuery {
    pub provider: Option<String>,
}

/// A model as the HTTP API shows it; prices are cut to 64 bits.
pub struct ModelResponse {
    pub id: String,
    pub base_model: Option<String>,
    pub context_length: u32,
    pub input_price_per_million: u64,
    pub output_price_per_million: u64,
    pub total_price_per_million: u64,
    pub capabilities: Vec<String>,
}

pub struct PushModelResponse {
    pub status: String,
    pub model_id: String,
    pub source: String,
    pub context_length: u32,
    pub input_price_per_million: u64,
    pub output_price_per_million: u64,
}

pub struct RemoveModelResponse {
    pub action: String,
    pub model_id: String,
    pub status: String,
}

/// Whether a response shows a model.
pub open spec fn responds(r: ModelResponse, m: ModelView) -> bool {
    &&& r.id@ == m.id
    &&& match r.base_model { Some(b) => m.base_model == Some(b@), None => m.base_model is None }
    &&& r.context_length == m.context_length
    &&& r.input_price_per_million == m.input_price as u64
    &&& r.output_price_per_million == m.output_price as u64
    &&& r.total_price_per_million == total_price(m) as u64
    &&& views(r.capabilities@) == m.capabilities
}

/// The response that shows a model.
pub fn model_info_to_response(m: &ModelInfo) -> (r: ModelResponse)
    ensures
        responds(r, m@),
{
    let total: u128 = m.input_price_per_million.saturating_add(m.output_price_per_million);
    let c = clone_model(m);
    ModelResponse {
        id: c.id,
        base_model: c.base_model,
        context_length: m.context_length,
        input_price_per_million: m.input_price_per_million as u64,
        output_price_per_million: m.output_price_per_million as u64,
        total_price_per_million: total as u64,
        capabilities: c.capabilities,
    }
}

/// The models a listing shows, given its filter.
pub open spec fn listed(s: Seq<ModelView>, provider: Option<Seq<char>>) -> Seq<ModelView> {
    match provider {
        Some(p) => matching(s, p),
        None => s,
    }
}

/// The filter of a listing query.
pub open spec fn provider_filter(q: ModelsQuery) -> Option<Seq<char>> {
    match q.provider {
        Some(p) => Some(p@),
        None => None,
    }
}

/// The HTTP listing of the registry.
pub fn list_models(reg: &ModelRegistry, q: &ModelsQuery) -> (r: Vec<ModelResponse>)
    requires
        reg.wf(),
    ensures
        r@.len() == listed(reg@, provider_filter(*q)).len(),
        forall|i: int| 0 <= i < r@.len() ==> responds(#[trigger] r@[i], listed(reg@, provider_filter(*q))[i]),
{
    let models = reg.models();
    let ghost s = reg@;
    let ghost pv: Option<Seq<char>> = provider_filter(*q);
    let mut out: Vec<ModelResponse> = Vec::new();
    let mut i: usize = 0;
    while i < models.len()
        invariant
            i <= models@.len(),
            model_views(models@) == s,
            pv == provider_filter(*q),
            out@.len() == listed(s.take(i as int), pv).len(),
            forall|k: int| 0 <= k < out@.len() ==> responds(#[trigger] out@[k], listed(s.take(i as int), pv)[k]),
        decreases models.len() - i,
    {
        let m = &models[i];
        proof {
            assert(s.take(i as int + 1).drop_last() =~= s.take(i as int));
            assert(s.take(i as int + 1) =~= s.take(i as int).push(m@));
        }
        let keep = match &q.provider {
            Some(p) => str_contains(m.id.as_str(), p.as_str()),
            None => true,
        };
        if keep {
            out.push(model_info_to_response(m));
        }
        i = i + 1;
    }
    proof {
        assert(s.take(models@.len() as int) =~= s);
    }
    out
}

/// The HTTP view of one model, or "not found".
pub fn show_model(reg: &ModelRegistry, model_id: &str) -> (r: Result<ModelResponse, ApiError>)
    requires
        reg.wf(),
    ensures
        match lookup(reg@, model_id@) {
            Some(m) => r is Ok && responds(r->Ok_0, m),
            None => r is Err && r->Err_0@ == ApiErrorView::NotFound(missing_text(model_id@)),
        },
{
    match reg.get(model_id) {
        Some(m) => Ok(model_info_to_response(m)),
        None => Err(ApiError::NotFound(missing(model_id))),
    }
}

/// Registers a model over the HTTP API: the name and the path must be given.
pub fn push_model(reg: &mut ModelRegistry, req: &PushModelRequest) -> (r: Result<PushModelResponse, ApiError>)
    requires
        old(reg).wf(),
    ensures
        final(reg).wf(),
        req.name@.len() == 0 ==> r is Err && r->Err_0@ == ApiErrorView::BadRequest("model name cannot be empty"@)
            && final(reg)@ == old(reg)@,
        req.name@.len() > 0 && req.path@.len() == 0 ==> r is Err && r->Err_0@ == ApiErrorView::BadRequest(
            "model path cannot be empty"@,
        ) && final(reg)@ == old(reg)@,
        req.name@.len() > 0 && req.path@.len() > 0 ==> r is Ok && final(reg)@ == after_put(old(reg)@, pushed_model(req.name@))
            && r->Ok_0.model_id@ == req.name@ && r->Ok_0.source@ == req.path@ && r->Ok_0.status@ == "registered"@
            && r->Ok_0.context_length == 4096 && r->Ok_0.input_price_per_million == 100
            && r->Ok_0.output_price_per_million == 200,
{
    if req.name.as_str().is_empty() {
        return Err(ApiError::BadRequest("model name cannot be empty".to_string()));
    }
    if req.path.as_str().is_empty() {
        return Err(ApiError::BadRequest("model path cannot be empty".to_string()));
    }
    let mut caps: Vec<String> = Vec::new();
    caps.push("chat".to_string());
    let m = ModelInfo {
        id: req.name.clone(),
        base_model: None,
        context_length: 4096,
        input_price_per_million: 100,
        output_price_per_million: 200,
        capabilities: caps,
    };
    assert(m@ == pushed_model(req.name@)) by {
        assert(views(m.capabilities@) =~= seq!["chat"@]);
    }
    reg.put(m);
    Ok(PushModelResponse {
        status: "registered".to_string(),
        model_id: req.name.clone(),
        source: req.path.clone(),
        context_length: 4096,
        input_price_per_million: 100,
        output_price_per_million: 200,
    })
}

/// Removes a model over the HTTP API, or reports that it is not registered.
pub fn remove_model(reg: &mut ModelRegistry, model_id: &str) -> (r: Result<RemoveModelResponse, ApiError>)
    requires
        old(reg).wf(),
    ensures
        final(reg).wf(),
        final(reg)@ == after_remove(old(reg)@, model_id@),
        lookup(old(reg)@, model_id@) is Some ==> r is Ok && r->Ok_0.model_id@ == model_id@ && r->Ok_0.action@
            == "remove"@ && r->Ok_0.status@ == "removed"@,
        lookup(old(reg)@, model_id@) is None ==> r is Err && r->Err_0@ == ApiErrorView::NotFound(missing_text(model_id@)),
{
    if reg.remove(model_id) {
        Ok(RemoveModelResponse {
            action: "remove".to_string(),
            model_id: model_id.to_string(),
            status: "removed".to_string(),
        })
    } else {
        Err(ApiError::NotFound(missing(model_id)))
    }
}

} // verus!
