//! The units of work that follow from the registry, and the merge of their
//! score cards.

use crate::encoding::LegacyEncoding;
use crate::score::combine;
use crate::score::combine_all;
use crate::score::counts_consistent;
use crate::score::fits;
use crate::score::Counts;
use crate::score::ScoreCard;
use crate::detect::is_tld_label;
use crate::taxonomy::class_models;
use crate::taxonomy::countries_lower_alpha;
use crate::taxonomy::encoding_classes;
use crate::taxonomy::is_lower_alpha;
use crate::taxonomy::lemma_lower_alpha_tld;
use crate::taxonomy::lemma_taxonomy_class;
use crate::taxonomy::taxonomy;
use crate::taxonomy::ClassModel;
use crate::taxonomy::EncodingClass;
use vstd::prelude::*;

verus! {

/// One unit of work: a language's corpus tested against one encoding in one
/// orthographic variant.
#[derive(Clone, Copy, Debug)]
pub struct EvaluationTask {
    pub language: &'static str,
    pub country: &'static str,
    pub encoding: LegacyEncoding,
    pub orthographic: bool,
}

/// The mathematical value of a task.
pub struct TaskModel {
    pub language: Seq<char>,
    pub country: Seq<char>,
    pub encoding: LegacyEncoding,
    pub orthographic: bool,
}

impl View for EvaluationTask {
    type V = TaskModel;

    open spec fn view(&self) -> TaskModel {
        TaskModel {
            language: self.language@,
            country: self.country@,
            encoding: self.encoding,
            orthographic: self.orthographic,
        }
    }
}

/// The models of a sequence of tasks.
pub open spec fn task_models(tasks: Seq<EvaluationTask>) -> Seq<TaskModel> {
    Seq::new(tasks.len(), |i: int| tasks[i]@)
}

/// The tasks of one language and one encoding: the loose variant, and for
/// the Vietnamese encoding the strict variant after it.
pub open spec fn encoding_tasks(language: (Seq<char>, Seq<char>), encoding: LegacyEncoding) -> Seq<
    TaskModel,
> {
    let loose = TaskModel {
        language: language.0,
        country: language.1,
        encoding: encoding,
        orthographic: false,
    };
    if encoding == LegacyEncoding::Windows1258 {
        seq![loose, TaskModel { orthographic: true, ..loose }]
    } else {
        seq![loose]
    }
}

/// The tasks of one language, encoding by encoding.
pub open spec fn language_tasks(
    language: (Seq<char>, Seq<char>),
    encodings: Seq<LegacyEncoding>,
) -> Seq<TaskModel>
    decreases encodings.len(),
{
    if encodings.len() == 0 {
        Seq::empty()
    } else {
        language_tasks(language, encodings.drop_last()) + encoding_tasks(language, encodings.last())
    }
}

/// The tasks of the languages of one class, language by language.
pub open spec fn class_tasks(
    languages: Seq<(Seq<char>, Seq<char>)>,
    encodings: Seq<LegacyEncoding>,
) -> Seq<TaskModel>
    decreases languages.len(),
{
    if languages.len() == 0 {
        Seq::empty()
    } else {
        class_tasks(languages.drop_last(), encodings) + language_tasks(languages.last(), encodings)
    }
}

/// The tasks of a registry: every language of every class against every
/// encoding of its class, class by class.
pub open spec fn registry_tasks(classes: Seq<ClassModel>) -> Seq<TaskModel>
    decreases classes.len(),
{
    if classes.len() == 0 {
        Seq::empty()
    } else {
        registry_tasks(classes.drop_last()) + class_tasks(
            classes.last().languages,
            classes.last().encodings,
        )
    }
}

/// Expands a registry into its tasks.
pub fn expand_tasks(classes: &Vec<EncodingClass>) -> (tasks: Vec<EvaluationTask>)
    ensures
        task_models(tasks@) == registry_tasks(class_models(classes@)),
{
    let ghost models = class_models(classes@);
    let mut tasks: Vec<EvaluationTask> = Vec::new();
    let mut c: usize = 0;
    assert(models.take(0) =~= Seq::<ClassModel>::empty());
    assert(task_models(tasks@) =~= Seq::<TaskModel>::empty());
    while c < classes.len()
        invariant
            c <= classes@.len(),
            models == class_models(classes@),
            task_models(tasks@) == registry_tasks(models.take(c as int)),
        decreases classes@.len() - c,
    {
        let class = &classes[c];
        let ghost class_model = models[c as int];
        let ghost done = task_models(tasks@);
        let mut l: usize = 0;
        assert(class_model.languages.take(0) =~= Seq::<(Seq<char>, Seq<char>)>::empty());
        assert(task_models(tasks@) =~= done + class_tasks(
            class_model.languages.take(0),
            class_model.encodings,
        ));
        while l < class.languages.len()
            invariant
                l <= class.languages@.len(),
                class_model == class@,
                task_models(tasks@) == done + class_tasks(
                    class_model.languages.take(l as int),
                    class_model.encodings,
                ),
            decreases class.languages@.len() - l,
        {
            let (language, country) = class.languages[l];
            let ghost language_model = class_model.languages[l as int];
            let ghost before = task_models(tasks@);
            let mut e: usize = 0;
            assert(class_model.encodings.take(0) =~= Seq::<LegacyEncoding>::empty());
            assert(task_models(tasks@) =~= before + language_tasks(
                language_model,
                class_model.encodings.take(0),
            ));
            while e < class.encodings.len()
                invariant
                    e <= class.encodings@.len(),
                    class_model == class@,
                    language_model == (language@, country@),
                    task_models(tasks@) == before + language_tasks(
                        language_model,
                        class_model.encodings.take(e as int),
                    ),
                decreases class.encodings@.len() - e,
            {
                let encoding = class.encodings[e];
                let ghost so_far = task_models(tasks@);
                tasks.push(EvaluationTask { language, country, encoding, orthographic: false });
                if encoding == LegacyEncoding::Windows1258 {
                    tasks.push(EvaluationTask { language, country, encoding, orthographic: true });
                }
                proof {
                    let taken = class_model.encodings.take(e + 1);
                    assert(taken.drop_last() =~= class_model.encodings.take(e as int));
                    assert(taken.last() == encoding);
                    assert(task_models(tasks@) =~= so_far + encoding_tasks(
                        language_model,
                        encoding,
                    ));
                    assert(task_models(tasks@) =~= before + language_tasks(language_model, taken));
                }
                e = e + 1;
            }
            proof {
                assert(class_model.encodings.take(e as int) =~= class_model.encodings);
                let taken = class_model.languages.take(l + 1);
                assert(taken.drop_last() =~= class_model.languages.take(l as int));
                assert(taken.last() == language_model);
                assert(task_models(tasks@) =~= done + class_tasks(taken, class_model.encodings));
            }
            l = l + 1;
        }
        proof {
            assert(class_model.languages.take(l as int) =~= class_model.languages);
            let taken = models.take(c + 1);
            assert(taken.drop_last() =~= models.take(c as int));
            assert(taken.last() == class_model);
        }
        c = c + 1;
    }
    assert(models.take(c as int) =~= models);
    tasks
}

/// Whether every task has a country code of lower-case ASCII letters.
pub open spec fn tasks_lower_alpha(tasks: Seq<TaskModel>) -> bool {
    forall|i: int| 0 <= i < tasks.len() ==> is_lower_alpha((#[trigger] tasks[i]).country)
}

proof fn lemma_language_tasks_countries(
    language: (Seq<char>, Seq<char>),
    encodings: Seq<LegacyEncoding>,
)
    requires
        is_lower_alpha(language.1),
    ensures
        tasks_lower_alpha(language_tasks(language, encodings)),
    decreases encodings.len(),
{
    if encodings.len() > 0 {
        lemma_language_tasks_countries(language, encodings.drop_last());
    }
}

proof fn lemma_class_tasks_countries(
    languages: Seq<(Seq<char>, Seq<char>)>,
    encodings: Seq<LegacyEncoding>,
)
    requires
        forall|j: int| 0 <= j < languages.len() ==> is_lower_alpha((#[trigger] languages[j]).1),
    ensures
        tasks_lower_alpha(class_tasks(languages, encodings)),
    decreases languages.len(),
{
    if languages.len() > 0 {
        let front = languages.drop_last();
        assert forall|j: int| 0 <= j < front.len() implies is_lower_alpha((#[trigger] front[j]).1) by {
            assert(front[j] == languages[j]);
        }
        lemma_class_tasks_countries(front, encodings);
        lemma_language_tasks_countries(languages.last(), encodings);
    }
}

/// The tasks of a registry take their country codes from the registry: where
/// those are lower-case ASCII letters, so are the tasks'.
pub proof fn lemma_registry_tasks_countries(classes: Seq<ClassModel>)
    requires
        forall|c: int| 0 <= c < classes.len() ==> countries_lower_alpha(#[trigger] classes[c]),
    ensures
        tasks_lower_alpha(registry_tasks(classes)),
    decreases classes.len(),
{
    if classes.len() > 0 {
        let front = classes.drop_last();
        assert forall|c: int| 0 <= c < front.len() implies countries_lower_alpha(
            #[trigger] front[c],
        ) by {
            assert(front[c] == classes[c]);
        }
        lemma_registry_tasks_countries(front);
        lemma_class_tasks_countries(classes.last().languages, classes.last().encodings);
    }
}

/// The tasks of the registry. Each country code is a top-level domain label
/// that the detectors accept.
pub fn standard_tasks() -> (tasks: Vec<EvaluationTask>)
    ensures
        task_models(tasks@) == registry_tasks(taxonomy()),
        forall|i: int|
            0 <= i < tasks@.len() ==> is_tld_label(
                vstd::utf8::encode_utf8((#[trigger] tasks@[i]).country@),
            ),
{
    let classes = encoding_classes();
    let tasks = expand_tasks(&classes);
    proof {
        assert forall|c: int| 0 <= c < taxonomy().len() implies countries_lower_alpha(
            #[trigger] taxonomy()[c],
        ) by {
            lemma_taxonomy_class(c);
        }
        lemma_registry_tasks_countries(taxonomy());
        assert forall|i: int| 0 <= i < tasks@.len() implies is_tld_label(
            vstd::utf8::encode_utf8((#[trigger] tasks@[i]).country@),
        ) by {
            assert(task_models(tasks@)[i].country == tasks@[i].country@);
            lemma_lower_alpha_tld(tasks@[i].country@);
        }
    }
    tasks
}

impl EvaluationTask {
    /// The hint handed to the detectors that take one: the country code as
    /// bytes where hints are in use, nothing otherwise.
    pub fn hint(&self, use_tld: bool) -> (tld: Option<&'static [u8]>)
        ensures
            tld is Some <==> use_tld,
            tld matches Some(t) ==> t@ == vstd::utf8::encode_utf8(self.country@),
    {
        if use_tld {
            Some(self.country.as_bytes())
        } else {
            None
        }
    }
}

/// The counts of a sequence of score cards.
pub open spec fn card_counts(cards: Seq<ScoreCard>) -> Seq<Counts> {
    Seq::new(cards.len(), |i: int| cards[i]@)
}

/// Folds the cards of the tasks into the running total, in order. Stops and
/// reports `false` at the first card with which some count would not fit in
/// 64 bits; the cards before it stay counted.
pub fn add_all(total_scores: &mut ScoreCard, cards: &Vec<ScoreCard>) -> (done: bool)
    ensures
        counts_consistent(old(total_scores)@) && (forall|i: int|
            0 <= i < cards@.len() ==> counts_consistent((#[trigger] cards@[i])@))
            ==> counts_consistent(final(total_scores)@),
        done == fits(combine(old(total_scores)@, combine_all(card_counts(cards@)))),
        done ==> final(total_scores)@ == combine(
            old(total_scores)@,
            combine_all(card_counts(cards@)),
        ),
        !done ==> exists|n: int|
            0 <= n < cards@.len() && final(total_scores)@ == combine(
                old(total_scores)@,
                combine_all(#[trigger] card_counts(cards@).take(n)),
            ),
{
    let ghost counts = card_counts(cards@);
    let mut i: usize = 0;
    assert(counts.take(0) =~= Seq::<Counts>::empty());
    while i < cards.len()
        invariant
            i <= cards@.len(),
            counts == card_counts(cards@),
            total_scores@ == combine(old(total_scores)@, combine_all(counts.take(i as int))),
            counts_consistent(old(total_scores)@) && (forall|k: int|
                0 <= k < cards@.len() ==> counts_consistent((#[trigger] cards@[k])@))
                ==> counts_consistent(total_scores@),
        decreases cards@.len() - i,
    {
        proof {
            let taken = counts.take(i + 1);
            assert(taken.drop_last() =~= counts.take(i as int));
            assert(taken.last() == cards@[i as int]@);
            lemma_merge_monotonic(counts, i + 1);
        }
        if !total_scores.checked_add(&cards[i]) {
            return false;
        }
        i = i + 1;
    }
    proof {
        assert(counts.take(i as int) =~= counts);
        total_scores.lemma_bounded();
    }
    true
}

/// No count of a merge shrinks as more cards are merged.
pub proof fn lemma_merge_monotonic(counts: Seq<Counts>, n: int)
    requires
        0 <= n <= counts.len(),
    ensures
        combine_all(counts.take(n)).total <= combine_all(counts).total,
        combine_all(counts.take(n)).ng <= combine_all(counts).ng,
        combine_all(counts.take(n)).ced <= combine_all(counts).ced,
        combine_all(counts.take(n)).chardet <= combine_all(counts).chardet,
        combine_all(counts.take(n)).icu <= combine_all(counts).icu,
    decreases counts.len() - n,
{
    if n < counts.len() {
        let taken = counts.take(n + 1);
        assert(taken.drop_last() =~= counts.take(n));
        lemma_merge_monotonic(counts, n + 1);
    } else {
        assert(counts.take(n) =~= counts);
    }
}

} // verus!
