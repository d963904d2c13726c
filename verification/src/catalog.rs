//! The model catalog: the cached list of models, its order, and the rules by
//! which a typed name is resolved to one of its entries.

use vstd::prelude::*;
use crate::error::CatalogError;
use crate::text::{
    chars_of, contains_text, joined, lemma_lex_le_reflexive, lemma_lex_le_total,
    lemma_lex_le_transitive, lex_le, lowercase, occurs_in, text_le, texts_view,
    unicode_lowercase,
};

verus! {

/// A model as the catalog and the preferences store it.
#[derive(Debug, PartialEq, Eq)]
pub struct StoredModel {
    /// The name shown to the user.
    pub name: String,
    /// The provider-qualified id under which the model is requested.
    pub canonical_slug: String,
}

/// A model as contracts speak of it: both fields by their characters.
pub struct ModelView {
    pub name: Seq<char>,
    pub canonical_slug: Seq<char>,
}

impl View for StoredModel {
    type V = ModelView;

    open spec fn view(&self) -> ModelView {
        ModelView { name: self.name@, canonical_slug: self.canonical_slug@ }
    }
}

impl Clone for StoredModel {
    fn clone(&self) -> (copy: Self)
        ensures
            copy == *self,
    {
        StoredModel { name: self.name.clone(), canonical_slug: self.canonical_slug.clone() }
    }
}

/// A list of models as contracts speak of it.
pub open spec fn catalog_view(models: Seq<StoredModel>) -> Seq<ModelView> {
    models.map_values(|model: StoredModel| model@)
}

/// A model beside the key by which it is ordered.
#[derive(Debug, PartialEq, Eq)]
pub struct KeyedModel {
    /// The text that decides the model's place.
    pub key: String,
    /// The model.
    pub model: StoredModel,
}

/// A keyed model as contracts speak of it.
pub struct Keyed {
    pub key: Seq<char>,
    pub model: ModelView,
}

impl View for KeyedModel {
    type V = Keyed;

    open spec fn view(&self) -> Keyed {
        Keyed { key: self.key@, model: self.model@ }
    }
}

/// A list of keyed models as contracts speak of it.
pub open spec fn keyed_view(entries: Seq<KeyedModel>) -> Seq<Keyed> {
    entries.map_values(|entry: KeyedModel| entry@)
}

/// The models of `items`, without their keys.
pub open spec fn models_of(items: Seq<Keyed>) -> Seq<ModelView> {
    items.map_values(|item: Keyed| item.model)
}

/// `sorted` with `item` put in behind the last entry whose key is not after
/// the item's key.
pub open spec fn insert_by_key(sorted: Seq<Keyed>, item: Keyed) -> Seq<Keyed>
    decreases sorted.len(),
{
    if sorted.len() > 0 && !lex_le(sorted.last().key, item.key) {
        insert_by_key(sorted.drop_last(), item).push(sorted.last())
    } else {
        sorted.push(item)
    }
}

/// `items` in the order of their keys; entries with the same key keep the
/// order in which they came.
pub open spec fn sort_by_key(items: Seq<Keyed>) -> Seq<Keyed>
    decreases items.len(),
{
    if items.len() == 0 {
        items
    } else {
        insert_by_key(sort_by_key(items.drop_last()), items.last())
    }
}

/// No entry of `items` has a key after that of a later entry.
pub open spec fn ordered_by_key(items: Seq<Keyed>) -> bool {
    forall|i: int, j: int| 0 <= i <= j < items.len() ==> lex_le(items[i].key, items[j].key)
}

/// Each model beside its name in lower case, the key of the catalog order.
pub open spec fn keyed_by_name(models: Seq<ModelView>) -> Seq<Keyed> {
    models.map_values(|model: ModelView| Keyed { key: unicode_lowercase(model.name), model })
}

/// The catalog order of `models`: by name without regard to case, models
/// whose names differ only in case keeping the order in which they came.
pub open spec fn sorted_catalog(models: Seq<ModelView>) -> Seq<ModelView> {
    models_of(sort_by_key(keyed_by_name(models)))
}

/// No model of `models` stands before one whose name in lower case comes
/// before its own.
pub open spec fn in_catalog_order(models: Seq<ModelView>) -> bool {
    forall|i: int, j: int|
        0 <= i <= j < models.len() ==> lex_le(
            unicode_lowercase(#[trigger] models[i].name),
            unicode_lowercase(#[trigger] models[j].name),
        )
}

/// Where `insert_by_key` puts an item: in front of the trailing run of
/// entries whose keys are after its key.
pub proof fn lemma_insert_position(sorted: Seq<Keyed>, item: Keyed, at: int)
    requires
        0 <= at <= sorted.len(),
        forall|j: int| at <= j < sorted.len() ==> !lex_le(#[trigger] sorted[j].key, item.key),
        at > 0 ==> lex_le(sorted[at - 1].key, item.key),
    ensures
        insert_by_key(sorted, item) == sorted.insert(at, item),
    decreases sorted.len(),
{
    if at == sorted.len() {
        assert(sorted.insert(at, item) =~= sorted.push(item));
    } else {
        assert(!lex_le(sorted[sorted.len() - 1].key, item.key));
        lemma_insert_position(sorted.drop_last(), item, at);
        assert(sorted.drop_last().insert(at, item).push(sorted.last()) =~= sorted.insert(
            at,
            item,
        ));
    }
}

/// The position at which `insert_by_key` puts `item` into `sorted`.
pub open spec fn insertion_point(sorted: Seq<Keyed>, item: Keyed) -> int
    decreases sorted.len(),
{
    if sorted.len() > 0 && !lex_le(sorted.last().key, item.key) {
        insertion_point(sorted.drop_last(), item)
    } else {
        sorted.len() as int
    }
}

/// `insert_by_key` is an insertion at `insertion_point`: every entry from
/// there on has a key after the item's, and the entry before has not.
pub proof fn lemma_insertion_point(sorted: Seq<Keyed>, item: Keyed)
    ensures
        0 <= insertion_point(sorted, item) <= sorted.len(),
        forall|j: int|
            insertion_point(sorted, item) <= j < sorted.len() ==> !lex_le(
                #[trigger] sorted[j].key,
                item.key,
            ),
        insertion_point(sorted, item) > 0 ==> lex_le(
            sorted[insertion_point(sorted, item) - 1].key,
            item.key,
        ),
        insert_by_key(sorted, item) == sorted.insert(insertion_point(sorted, item), item),
    decreases sorted.len(),
{
    if sorted.len() > 0 && !lex_le(sorted.last().key, item.key) {
        lemma_insertion_point(sorted.drop_last(), item);
        let at = insertion_point(sorted, item);
        assert forall|j: int| at <= j < sorted.len() implies !lex_le(
            #[trigger] sorted[j].key,
            item.key,
        ) by {
            if j < sorted.len() - 1 {
                assert(sorted[j] == sorted.drop_last()[j]);
            }
        }
        if at > 0 {
            assert(sorted[at - 1] == sorted.drop_last()[at - 1]);
        }
    }
    lemma_insert_position(sorted, item, insertion_point(sorted, item));
}

/// Putting an item into an ordered list by its key leaves the list ordered.
pub proof fn lemma_insert_keeps_order(sorted: Seq<Keyed>, item: Keyed)
    requires
        ordered_by_key(sorted),
    ensures
        ordered_by_key(insert_by_key(sorted, item)),
{
    lemma_insertion_point(sorted, item);
    let at = insertion_point(sorted, item);
    let result = sorted.insert(at, item);
    assert forall|i: int, j: int| 0 <= i <= j < result.len() implies lex_le(
        result[i].key,
        result[j].key,
    ) by {
        if i < at {
            assert(result[i] == sorted[i]);
            if j < at {
                assert(result[j] == sorted[j]);
            } else if j == at {
                lemma_lex_le_transitive(sorted[i].key, sorted[at - 1].key, item.key);
            } else {
                assert(result[j] == sorted[j - 1]);
            }
        } else if i == at {
            if j == at {
                lemma_lex_le_reflexive(item.key);
            } else {
                assert(result[j] == sorted[j - 1]);
                lemma_lex_le_total(sorted[j - 1].key, item.key);
            }
        } else {
            assert(result[i] == sorted[i - 1]);
            assert(result[j] == sorted[j - 1]);
        }
    }
}

/// Sorting by key gives an ordered list of the same entries, each as often
/// as it came.
pub proof fn lemma_sort_by_key(items: Seq<Keyed>)
    ensures
        ordered_by_key(sort_by_key(items)),
        sort_by_key(items).len() == items.len(),
        sort_by_key(items).to_multiset() == items.to_multiset(),
    decreases items.len(),
{
    if items.len() > 0 {
        let front = items.drop_last();
        lemma_sort_by_key(front);
        lemma_insert_keeps_order(sort_by_key(front), items.last());
        lemma_insertion_point(sort_by_key(front), items.last());
        vstd::seq_lib::to_multiset_insert(
            sort_by_key(front),
            insertion_point(sort_by_key(front), items.last()),
            items.last(),
        );
        vstd::seq_lib::to_multiset_build(front, items.last());
        assert(front.push(items.last()) =~= items);
    }
}

/// An ordered list is its own sorting.
pub proof fn lemma_sort_of_ordered(items: Seq<Keyed>)
    requires
        ordered_by_key(items),
    ensures
        sort_by_key(items) == items,
    decreases items.len(),
{
    if items.len() > 0 {
        let front = items.drop_last();
        assert forall|i: int, j: int| 0 <= i <= j < front.len() implies lex_le(
            front[i].key,
            front[j].key,
        ) by {
            assert(front[i] == items[i] && front[j] == items[j]);
        }
        lemma_sort_of_ordered(front);
        if front.len() > 0 {
            assert(front.last() == items[items.len() - 2]);
            assert(lex_le(items[items.len() - 2].key, items[items.len() - 1].key));
        }
        assert(front.push(items.last()) =~= items);
    }
}

/// Sorting by key gives the models of the list, each as often as it came.
pub proof fn lemma_sort_keeps_models(items: Seq<Keyed>)
    ensures
        models_of(sort_by_key(items)).to_multiset() == models_of(items).to_multiset(),
    decreases items.len(),
{
    if items.len() > 0 {
        let front = items.drop_last();
        let item = items.last();
        lemma_sort_keeps_models(front);
        lemma_insertion_point(sort_by_key(front), item);
        let at = insertion_point(sort_by_key(front), item);
        assert(models_of(sort_by_key(front).insert(at, item)) =~= models_of(
            sort_by_key(front),
        ).insert(at, item.model));
        vstd::seq_lib::to_multiset_insert(models_of(sort_by_key(front)), at, item.model);
        vstd::seq_lib::to_multiset_build(models_of(front), item.model);
        assert(models_of(front).push(item.model) =~= models_of(items));
    }
}

/// The key of every entry is its model's name in lower case.
pub open spec fn keys_follow_names(items: Seq<Keyed>) -> bool {
    forall|i: int|
        0 <= i < items.len() ==> (#[trigger] items[i]).key == unicode_lowercase(
            items[i].model.name,
        )
}

/// Sorting entries whose keys are their names in lower case gives such entries.
proof fn lemma_sort_keeps_keys(items: Seq<Keyed>)
    requires
        keys_follow_names(items),
    ensures
        keys_follow_names(sort_by_key(items)),
{
    let sorted = sort_by_key(items);
    lemma_sort_by_key(items);
    assert forall|i: int| 0 <= i < sorted.len() implies (#[trigger] sorted[i]).key
        == unicode_lowercase(sorted[i].model.name) by {
        assert(sorted.contains(sorted[i]));
        vstd::seq_lib::to_multiset_contains(sorted, sorted[i]);
        vstd::seq_lib::to_multiset_contains(items, sorted[i]);
        let j = choose|j: int| 0 <= j < items.len() && items[j] == sorted[i];
        assert(items[j].key == unicode_lowercase(items[j].model.name));
    }
}

/// The catalog order is an order by name without regard to case.
pub proof fn law_sorted_catalog_is_ordered(models: Seq<ModelView>)
    ensures
        in_catalog_order(sorted_catalog(models)),
{
    let items = keyed_by_name(models);
    lemma_sort_by_key(items);
    lemma_sort_keeps_keys(items);
    let sorted = sort_by_key(items);
    let catalog = sorted_catalog(models);
    assert forall|i: int, j: int| 0 <= i <= j < catalog.len() implies lex_le(
        unicode_lowercase(#[trigger] catalog[i].name),
        unicode_lowercase(#[trigger] catalog[j].name),
    ) by {
        assert(lex_le(sorted[i].key, sorted[j].key));
    }
}

/// The catalog order loses and invents nothing: it holds every model of the
/// listing as often as the listing does.
pub proof fn law_sorted_catalog_is_permutation(models: Seq<ModelView>)
    ensures
        sorted_catalog(models).len() == models.len(),
        sorted_catalog(models).to_multiset() == models.to_multiset(),
{
    let items = keyed_by_name(models);
    lemma_sort_by_key(items);
    lemma_sort_keeps_models(items);
    assert(models_of(items) =~= models);
}

/// Putting an unchanged listing in catalog order again changes nothing: the
/// order depends on the listing alone, and a catalog in that order is its
/// own catalog order.
pub proof fn law_sorted_catalog_is_idempotent(models: Seq<ModelView>)
    ensures
        sorted_catalog(sorted_catalog(models)) == sorted_catalog(models),
{
    let items = keyed_by_name(models);
    let sorted = sort_by_key(items);
    lemma_sort_by_key(items);
    lemma_sort_keeps_keys(items);
    let once = models_of(sorted);
    assert(keyed_by_name(once) =~= sorted);
    lemma_sort_of_ordered(sorted);
}

/// No two models of `models` have the same id.
pub open spec fn unique_ids(models: Seq<ModelView>) -> bool {
    forall|i: int, j: int|
        0 <= i < j < models.len() ==> #[trigger] models[i].canonical_slug
            != #[trigger] models[j].canonical_slug
}

/// Sorting by key keeps the ids of the models apart.
proof fn lemma_sort_keeps_ids_unique(items: Seq<Keyed>)
    requires
        unique_ids(models_of(items)),
    ensures
        unique_ids(models_of(sort_by_key(items))),
    decreases items.len(),
{
    if items.len() > 0 {
        let front = items.drop_last();
        let last = items.last();
        assert forall|i: int, j: int|
            0 <= i < j < models_of(front).len() implies #[trigger] models_of(
            front,
        )[i].canonical_slug != #[trigger] models_of(front)[j].canonical_slug by {
            assert(models_of(front)[i] == models_of(items)[i]);
            assert(models_of(front)[j] == models_of(items)[j]);
        }
        lemma_sort_keeps_ids_unique(front);
        let sorted = sort_by_key(front);
        lemma_sort_by_key(front);
        lemma_insertion_point(sorted, last);
        let at = insertion_point(sorted, last);
        let result = sorted.insert(at, last);
        assert forall|x: int| 0 <= x < sorted.len() implies #[trigger] sorted[x].model.canonical_slug
            != last.model.canonical_slug by {
            assert(sorted.contains(sorted[x]));
            vstd::seq_lib::to_multiset_contains(sorted, sorted[x]);
            vstd::seq_lib::to_multiset_contains(front, sorted[x]);
            let k = choose|k: int| 0 <= k < front.len() && front[k] == sorted[x];
            assert(models_of(items)[k] == front[k].model);
            assert(models_of(items)[items.len() - 1] == last.model);
        }
        assert forall|i: int, j: int|
            0 <= i < j < models_of(result).len() implies #[trigger] models_of(
            result,
        )[i].canonical_slug != #[trigger] models_of(result)[j].canonical_slug by {
            let a = if i < at { i } else { i - 1 };
            let b = if j < at { j } else { j - 1 };
            if i == at {
                assert(result[j] == sorted[b]);
            } else if j == at {
                assert(result[i] == sorted[a]);
            } else {
                assert(result[i] == sorted[a]);
                assert(result[j] == sorted[b]);
                assert(models_of(sorted)[a] == sorted[a].model);
                assert(models_of(sorted)[b] == sorted[b].model);
            }
        }
    }
}

/// A listing in which every id occurs once gives a catalog in which every
/// id occurs once.
pub proof fn law_sorted_catalog_keeps_ids_unique(models: Seq<ModelView>)
    requires
        unique_ids(models),
    ensures
        unique_ids(sorted_catalog(models)),
{
    assert(models_of(keyed_by_name(models)) =~= models);
    lemma_sort_keeps_ids_unique(keyed_by_name(models));
}

/// One entry of the list being sorted: a model and the characters of its key.
struct Entry {
    key: Vec<char>,
    model: StoredModel,
}

impl View for Entry {
    type V = Keyed;

    closed spec fn view(&self) -> Keyed {
        Keyed { key: self.key@, model: self.model@ }
    }
}

/// The entries of a working list as contracts speak of them.
spec fn entries_view(entries: Seq<Entry>) -> Seq<Keyed> {
    entries.map_values(|entry: Entry| entry@)
}

/// Orders the models by their keys. Models with the same key keep the order
/// in which they came.
pub fn order_by_keys(keyed: &Vec<KeyedModel>) -> (sorted: Vec<StoredModel>)
    ensures
        catalog_view(sorted@) == models_of(sort_by_key(keyed_view(keyed@))),
        ordered_by_key(sort_by_key(keyed_view(keyed@))),
        sorted@.len() == keyed@.len(),
{
    let ghost input = keyed_view(keyed@);
    let mut entries: Vec<Entry> = Vec::new();
    let mut i: usize = 0;
    proof {
        assert(entries_view(entries@) =~= sort_by_key(input.take(0)));
        lemma_sort_by_key(input);
    }
    while i < keyed.len()
        invariant
            i <= keyed@.len(),
            input == keyed_view(keyed@),
            entries_view(entries@) == sort_by_key(input.take(i as int)),
        decreases keyed@.len() - i,
    {
        let key = chars_of(keyed[i].key.as_str());
        let model = keyed[i].model.clone();
        let ghost item = Keyed { key: key@, model: model@ };
        let mut at: usize = entries.len();
        while at > 0 && !text_le(&entries[at - 1].key, &key)
            invariant
                at <= entries@.len(),
                forall|j: int|
                    at <= j < entries@.len() ==> !lex_le(
                        #[trigger] entries_view(entries@)[j].key,
                        key@,
                    ),
            decreases at,
        {
            at = at - 1;
        }
        let ghost before = entries_view(entries@);
        proof {
            assert(input.take(i + 1).drop_last() =~= input.take(i as int));
            assert(input.take(i + 1).last() == item);
            if at > 0 {
                assert(before[at - 1].key == entries@[at - 1].key@);
            }
            lemma_insert_position(before, item, at as int);
        }
        entries.insert(at, Entry { key, model });
        proof {
            assert(entries_view(entries@) =~= before.insert(at as int, item));
        }
        i = i + 1;
    }
    proof {
        assert(input.take(keyed@.len() as int) =~= input);
    }
    let mut sorted: Vec<StoredModel> = Vec::new();
    let mut k: usize = 0;
    while k < entries.len()
        invariant
            k <= entries@.len(),
            catalog_view(sorted@) == models_of(entries_view(entries@)).take(k as int),
        decreases entries@.len() - k,
    {
        let ghost before = catalog_view(sorted@);
        sorted.push(entries[k].model.clone());
        proof {
            let all = models_of(entries_view(entries@));
            assert(catalog_view(sorted@) =~= before.push(entries@[k as int].model@));
            assert(all[k as int] == entries@[k as int].model@);
            assert(before.push(all[k as int]) =~= all.take(k + 1));
        }
        k = k + 1;
    }
    proof {
        let all = models_of(entries_view(entries@));
        assert(all.take(entries@.len() as int) =~= all);
        assert(catalog_view(sorted@).len() == sorted@.len());
    }
    sorted
}

/// Puts `models` in catalog order: by name without regard to case.
pub fn sort_catalog(models: &Vec<StoredModel>) -> (sorted: Vec<StoredModel>)
    ensures
        catalog_view(sorted@) == sorted_catalog(catalog_view(models@)),
        in_catalog_order(catalog_view(sorted@)),
        catalog_view(sorted@).to_multiset() == catalog_view(models@).to_multiset(),
        sorted@.len() == models@.len(),
{
    let ghost all = keyed_by_name(catalog_view(models@));
    let mut keyed: Vec<KeyedModel> = Vec::new();
    let mut i: usize = 0;
    while i < models.len()
        invariant
            i <= models@.len(),
            all == keyed_by_name(catalog_view(models@)),
            keyed_view(keyed@) == all.take(i as int),
        decreases models@.len() - i,
    {
        let ghost before = keyed_view(keyed@);
        let entry = KeyedModel {
            key: lowercase(models[i].name.as_str()),
            model: models[i].clone(),
        };
        proof {
            assert(entry@ == all[i as int]);
        }
        keyed.push(entry);
        proof {
            assert(keyed_view(keyed@) =~= before.push(all[i as int]));
            assert(before.push(all[i as int]) =~= all.take(i + 1));
        }
        i = i + 1;
    }
    proof {
        assert(all.take(models@.len() as int) =~= all);
        assert(keyed_view(keyed@).len() == keyed@.len());
        law_sorted_catalog_is_ordered(catalog_view(models@));
        law_sorted_catalog_is_permutation(catalog_view(models@));
    }
    order_by_keys(&keyed)
}

/// A catalog entry beside the lower-case forms of its name and its id.
#[derive(Debug, PartialEq, Eq)]
pub struct FoldedModel {
    /// The entry itself.
    pub model: StoredModel,
    /// The entry's name in lower case.
    pub folded_name: String,
    /// The entry's id in lower case.
    pub folded_slug: String,
}

/// A folded entry as contracts speak of it.
pub struct FoldedView {
    pub model: ModelView,
    pub folded_name: Seq<char>,
    pub folded_slug: Seq<char>,
}

impl View for FoldedModel {
    type V = FoldedView;

    open spec fn view(&self) -> FoldedView {
        FoldedView {
            model: self.model@,
            folded_name: self.folded_name@,
            folded_slug: self.folded_slug@,
        }
    }
}

/// A list of folded entries as contracts speak of it.
pub open spec fn folded_view(entries: Seq<FoldedModel>) -> Seq<FoldedView> {
    entries.map_values(|entry: FoldedModel| entry@)
}

/// Each model of the catalog beside its name and its id in lower case.
pub open spec fn fold_catalog(models: Seq<ModelView>) -> Seq<FoldedView> {
    models.map_values(
        |model: ModelView|
            FoldedView {
                model,
                folded_name: unicode_lowercase(model.name),
                folded_slug: unicode_lowercase(model.canonical_slug),
            },
    )
}

/// The three ways in which a typed name can stand for an entry, in the
/// order in which they are tried.
#[derive(Clone, Copy, Debug, PartialEq, Eq, Structural)]
pub enum Rule {
    /// The name is the entry's id, letter for letter.
    Exact,
    /// The name is the entry's id or its name, without regard to case.
    Loose,
    /// The name is part of the entry's id, without regard to case.
    Partial,
}

/// Whether `entry` is a match for the typed name under `rule`.
pub open spec fn rule_matches(
    rule: Rule,
    entry: FoldedView,
    input: Seq<char>,
    folded_input: Seq<char>,
) -> bool {
    match rule {
        Rule::Exact => entry.model.canonical_slug == input,
        Rule::Loose => entry.folded_slug == folded_input || entry.folded_name == folded_input,
        Rule::Partial => occurs_in(entry.folded_slug, folded_input),
    }
}

/// The models of the entries that match under `rule`, in catalog order.
pub open spec fn matching(
    entries: Seq<FoldedView>,
    rule: Rule,
    input: Seq<char>,
    folded_input: Seq<char>,
) -> Seq<ModelView>
    decreases entries.len(),
{
    if entries.len() == 0 {
        Seq::empty()
    } else if rule_matches(rule, entries.last(), input, folded_input) {
        matching(entries.drop_last(), rule, input, folded_input).push(entries.last().model)
    } else {
        matching(entries.drop_last(), rule, input, folded_input)
    }
}

/// What a typed name resolves to.
#[derive(Debug, PartialEq, Eq)]
pub enum Resolution {
    /// The name stands for this model.
    Selected(StoredModel),
    /// The name is part of several ids; these are the first of them, five at most.
    Ambiguous(Vec<StoredModel>),
    /// The name stands for nothing in the catalog.
    NotFound,
}

/// A resolution as contracts speak of it.
pub enum ResolutionView {
    Selected(ModelView),
    Ambiguous(Seq<ModelView>),
    NotFound,
}

impl View for Resolution {
    type V = ResolutionView;

    open spec fn view(&self) -> ResolutionView {
        match self {
            Resolution::Selected(model) => ResolutionView::Selected(model@),
            Resolution::Ambiguous(candidates) => ResolutionView::Ambiguous(
                catalog_view(candidates@),
            ),
            Resolution::NotFound => ResolutionView::NotFound,
        }
    }
}

/// The most candidates that an ambiguous resolution names.
pub const CANDIDATE_LIMIT: usize = 5;

/// The first `CANDIDATE_LIMIT` of `candidates`, or all where they are fewer.
pub open spec fn first_candidates(candidates: Seq<ModelView>) -> Seq<ModelView> {
    if candidates.len() <= CANDIDATE_LIMIT {
        candidates
    } else {
        candidates.take(CANDIDATE_LIMIT as int)
    }
}

/// The rules of resolution, first match wins: the entry with exactly this
/// id; else the first entry whose id or name is the typed name without
/// regard to case; else, among the entries whose id holds the typed name,
/// the only one. Several such entries make the name ambiguous, none makes
/// it unknown.
pub open spec fn resolution_of(
    entries: Seq<FoldedView>,
    input: Seq<char>,
    folded_input: Seq<char>,
) -> ResolutionView {
    let exact = matching(entries, Rule::Exact, input, folded_input);
    let loose = matching(entries, Rule::Loose, input, folded_input);
    let partial = matching(entries, Rule::Partial, input, folded_input);
    if exact.len() > 0 {
        ResolutionView::Selected(exact[0])
    } else if loose.len() > 0 {
        ResolutionView::Selected(loose[0])
    } else if partial.len() == 1 {
        ResolutionView::Selected(partial[0])
    } else if partial.len() > 1 {
        ResolutionView::Ambiguous(first_candidates(partial))
    } else {
        ResolutionView::NotFound
    }
}

/// Tells whether `entry` is a match for the typed name under `rule`.
fn entry_matches(rule: Rule, entry: &FoldedModel, input: &String, folded_input: &String) -> (hit:
    bool)
    ensures
        hit == rule_matches(rule, entry@, input@, folded_input@),
{
    match rule {
        Rule::Exact => entry.model.canonical_slug == *input,
        Rule::Loose => entry.folded_slug == *folded_input || entry.folded_name == *folded_input,
        Rule::Partial => contains_text(entry.folded_slug.as_str(), folded_input.as_str()),
    }
}

/// The models of the entries that match under `rule`, in catalog order.
fn collect_matches(
    entries: &Vec<FoldedModel>,
    rule: Rule,
    input: &String,
    folded_input: &String,
) -> (found: Vec<StoredModel>)
    ensures
        catalog_view(found@) == matching(folded_view(entries@), rule, input@, folded_input@),
{
    let ghost all = folded_view(entries@);
    let mut found: Vec<StoredModel> = Vec::new();
    let mut i: usize = 0;
    proof {
        assert(catalog_view(found@) =~= matching(all.take(0), rule, input@, folded_input@));
    }
    while i < entries.len()
        invariant
            i <= entries@.len(),
            all == folded_view(entries@),
            catalog_view(found@) == matching(all.take(i as int), rule, input@, folded_input@),
        decreases entries@.len() - i,
    {
        proof {
            assert(all.take(i + 1).drop_last() =~= all.take(i as int));
            assert(all.take(i + 1).last() == entries@[i as int]@);
        }
        if entry_matches(rule, &entries[i], input, folded_input) {
            let ghost before = catalog_view(found@);
            found.push(entries[i].model.clone());
            proof {
                assert(catalog_view(found@) =~= before.push(entries@[i as int].model@));
            }
        }
        i = i + 1;
    }
    proof {
        assert(all.take(entries@.len() as int) =~= all);
    }
    found
}

/// Resolves a typed name against entries whose lower-case forms are given.
pub fn resolve_folded(entries: &Vec<FoldedModel>, input: &str, folded_input: &str) -> (resolved:
    Resolution)
    ensures
        resolved@ == resolution_of(folded_view(entries@), input@, folded_input@),
{
    let input = input.to_owned();
    let folded_input = folded_input.to_owned();
    let exact = collect_matches(entries, Rule::Exact, &input, &folded_input);
    if exact.len() > 0 {
        assert(catalog_view(exact@)[0] == exact@[0]@);
        return Resolution::Selected(exact[0].clone());
    }
    let loose = collect_matches(entries, Rule::Loose, &input, &folded_input);
    if loose.len() > 0 {
        assert(catalog_view(loose@)[0] == loose@[0]@);
        return Resolution::Selected(loose[0].clone());
    }
    let mut partial = collect_matches(entries, Rule::Partial, &input, &folded_input);
    if partial.len() == 1 {
        assert(catalog_view(partial@)[0] == partial@[0]@);
        Resolution::Selected(partial[0].clone())
    } else if partial.len() > 1 {
        let ghost all = catalog_view(partial@);
        if partial.len() > CANDIDATE_LIMIT {
            partial.truncate(CANDIDATE_LIMIT);
        }
        assert(catalog_view(partial@) =~= first_candidates(all));
        Resolution::Ambiguous(partial)
    } else {
        Resolution::NotFound
    }
}

/// Resolves a typed name against the catalog.
pub fn resolve_model(catalog: &Vec<StoredModel>, input: &str) -> (resolved: Resolution)
    ensures
        resolved@ == resolution_of(
            fold_catalog(catalog_view(catalog@)),
            input@,
            unicode_lowercase(input@),
        ),
{
    let ghost all = fold_catalog(catalog_view(catalog@));
    let mut entries: Vec<FoldedModel> = Vec::new();
    let mut i: usize = 0;
    while i < catalog.len()
        invariant
            i <= catalog@.len(),
            all == fold_catalog(catalog_view(catalog@)),
            folded_view(entries@) == all.take(i as int),
        decreases catalog@.len() - i,
    {
        let ghost before = folded_view(entries@);
        let model = catalog[i].clone();
        let folded_name = lowercase(model.name.as_str());
        let folded_slug = lowercase(model.canonical_slug.as_str());
        let entry = FoldedModel { model, folded_name, folded_slug };
        proof {
            assert(entry@ == all[i as int]);
        }
        entries.push(entry);
        proof {
            assert(folded_view(entries@) =~= before.push(all[i as int]));
            assert(before.push(all[i as int]) =~= all.take(i + 1));
        }
        i = i + 1;
    }
    proof {
        assert(all.take(catalog@.len() as int) =~= all);
    }
    let folded_input = lowercase(input);
    resolve_folded(&entries, input, folded_input.as_str())
}

/// Where neither the first nor the second rule finds an entry, the entries
/// whose id holds the typed name decide: a single one is selected; of
/// several, the first are named and none is selected; none at all leaves
/// the name unknown.
pub proof fn law_resolution_by_candidates(
    entries: Seq<FoldedView>,
    input: Seq<char>,
    folded_input: Seq<char>,
)
    requires
        matching(entries, Rule::Exact, input, folded_input).len() == 0,
        matching(entries, Rule::Loose, input, folded_input).len() == 0,
    ensures
        ({
            let partial = matching(entries, Rule::Partial, input, folded_input);
            let resolved = resolution_of(entries, input, folded_input);
            &&& partial.len() == 1 ==> resolved == ResolutionView::Selected(partial[0])
            &&& partial.len() == 0 ==> resolved == ResolutionView::NotFound
            &&& partial.len() > 1 ==> {
                &&& resolved == ResolutionView::Ambiguous(first_candidates(partial))
                &&& 2 <= first_candidates(partial).len() <= CANDIDATE_LIMIT
                &&& forall|i: int|
                    0 <= i < first_candidates(partial).len() ==> first_candidates(partial)[i]
                        == partial[i]
            }
        }),
{
}

/// The line that names one candidate.
pub open spec fn candidate_line(model: ModelView) -> Seq<char> {
    "  - "@ + model.name + " ("@ + model.canonical_slug + ")"@
}

/// What the user is told when a name did not resolve: the candidates of an
/// ambiguous name, or for an unknown one how to refresh and list the catalog.
pub open spec fn guidance_of(resolved: ResolutionView, input: Seq<char>) -> Seq<Seq<char>> {
    match resolved {
        ResolutionView::Selected(_) => Seq::empty(),
        ResolutionView::Ambiguous(candidates) => seq!["Model not found. Did you mean:"@]
            + candidates.map_values(|model: ModelView| candidate_line(model)),
        ResolutionView::NotFound => seq![
            "Model '"@ + input + "' not found"@,
            "Run 'git-acm get-models' and then 'git-acm list'"@,
        ],
    }
}

impl Resolution {
    /// The lines that tell the user why `input` selected no model and what
    /// to do about it. A selection needs none.
    pub fn guidance(&self, input: &str) -> (lines: Vec<String>)
        ensures
            texts_view(lines@) == guidance_of(self@, input@),
    {
        let mut lines: Vec<String> = Vec::new();
        match self {
            Resolution::Selected(_) => {
                assert(texts_view(lines@) =~= guidance_of(self@, input@));
            },
            Resolution::Ambiguous(candidates) => {
                lines.push("Model not found. Did you mean:".to_owned());
                let ghost shown = catalog_view(candidates@).map_values(
                    |model: ModelView| candidate_line(model),
                );
                let ghost head = seq!["Model not found. Did you mean:"@];
                let mut i: usize = 0;
                proof {
                    assert(texts_view(lines@) =~= head + shown.take(0));
                }
                while i < candidates.len()
                    invariant
                        i <= candidates@.len(),
                        head == seq!["Model not found. Did you mean:"@],
                        shown == catalog_view(candidates@).map_values(
                            |model: ModelView| candidate_line(model),
                        ),
                        texts_view(lines@) == head + shown.take(i as int),
                    decreases candidates@.len() - i,
                {
                    let ghost before = texts_view(lines@);
                    let line = joined("  - ".to_owned(), candidates[i].name.as_str());
                    let line = joined(line, " (");
                    let line = joined(line, candidates[i].canonical_slug.as_str());
                    let line = joined(line, ")");
                    proof {
                        assert(line@ == shown[i as int]);
                    }
                    lines.push(line);
                    proof {
                        assert(texts_view(lines@) =~= before.push(shown[i as int]));
                        assert(before.push(shown[i as int]) =~= head + shown.take(i + 1));
                    }
                    i = i + 1;
                }
                proof {
                    assert(shown.take(candidates@.len() as int) =~= shown);
                }
            },
            Resolution::NotFound => {
                let line = joined("Model '".to_owned(), input);
                lines.push(joined(line, "' not found"));
                lines.push("Run 'git-acm get-models' and then 'git-acm list'".to_owned());
                assert(texts_view(lines@) =~= guidance_of(self@, input@));
            },
        }
        lines
    }
}

/// The catalog that a refresh persists, given the listing that was fetched:
/// the whole listing in catalog order, or nothing where there is no listing.
pub open spec fn refreshed(listing: Option<Seq<ModelView>>) -> Result<Seq<ModelView>, CatalogError> {
    match listing {
        Some(models) => Ok(sorted_catalog(models)),
        None => Err(CatalogError::FetchFailed),
    }
}

/// Makes the new catalog of a fetched listing: `None` stands for a listing
/// that could not be fetched, and leaves the cached catalog as it is. The
/// new catalog is built from the listing alone and replaces the old one
/// whole.
pub fn refresh_catalog(listing: Option<&Vec<StoredModel>>) -> (catalog: Result<
    Vec<StoredModel>,
    CatalogError,
>)
    ensures
        match catalog {
            Ok(models) => {
                &&& listing matches Some(fetched)
                &&& refreshed(Some(catalog_view(fetched@))) == Ok::<Seq<ModelView>, CatalogError>(
                    catalog_view(models@),
                )
                &&& in_catalog_order(catalog_view(models@))
                &&& catalog_view(models@).to_multiset() == catalog_view(fetched@).to_multiset()
                &&& models@.len() == fetched@.len()
            },
            Err(error) => listing is None && refreshed(None) == Err::<
                Seq<ModelView>,
                CatalogError,
            >(error),
        },
{
    match listing {
        Some(fetched) => Ok(sort_catalog(fetched)),
        None => Err(CatalogError::FetchFailed),
    }
}

/// The line that shows one model of the catalog.
pub open spec fn listing_line(model: ModelView) -> Seq<char> {
    "  • "@ + model.name
}

/// The lines that show the catalog: one per model, by its name.
pub fn list_models(catalog: &Vec<StoredModel>) -> (lines: Vec<String>)
    ensures
        texts_view(lines@) == catalog_view(catalog@).map_values(
            |model: ModelView| listing_line(model),
        ),
{
    let ghost shown = catalog_view(catalog@).map_values(|model: ModelView| listing_line(model));
    let mut lines: Vec<String> = Vec::new();
    let mut i: usize = 0;
    proof {
        assert(texts_view(lines@) =~= shown.take(0));
    }
    while i < catalog.len()
        invariant
            i <= catalog@.len(),
            shown == catalog_view(catalog@).map_values(|model: ModelView| listing_line(model)),
            texts_view(lines@) == shown.take(i as int),
        decreases catalog@.len() - i,
    {
        let ghost before = texts_view(lines@);
        let line = joined("  • ".to_owned(), catalog[i].name.as_str());
        proof {
            assert(line@ == shown[i as int]);
        }
        lines.push(line);
        proof {
            assert(texts_view(lines@) =~= before.push(shown[i as int]));
            assert(before.push(shown[i as int]) =~= shown.take(i + 1));
        }
        i = i + 1;
    }
    proof {
        assert(shown.take(catalog@.len() as int) =~= shown);
    }
    lines
}

} // verus!
