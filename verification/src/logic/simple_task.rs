//! Simple tasks: creating, listing, changing and removing them.

use vstd::prelude::*;
use crate::error_messages::domain::EvelynCoreError;
use crate::error_messages::storage::EvelynDatabaseError;
use crate::identifiers::{is_identifier, random_identifier};
use crate::logic::schedule::{
    arranged,
    arranged_by,
    instant_of,
    instants_of,
    lemma_order_names_each_place_once,
    listed_before,
    order,
    parse_instant,
    picked,
    place_of,
    precedes,
};
use crate::model::simple_task::{
    CreateSimpleTaskRequestModel,
    CreateSimpleTaskResponseModel,
    LookupSimpleTaskRequestModel,
    LookupSimpleTaskResponseModel,
    SimpleTaskExternalModel,
    SimpleTaskLookupModel,
    SimpleTaskModel,
    SimpleTaskUpdateModel,
    UpdateSimpleTaskRequestModel,
};
use crate::model::SessionTokenModel;

verus! {

/// The record of a new task: what was asked for, owned by who asked, under
/// the given identifier, and not yet done.
pub open spec fn drafted(
    model: CreateSimpleTaskRequestModel,
    session_token_model: SessionTokenModel,
    task_id: String,
) -> SimpleTaskModel {
    SimpleTaskModel {
        user_id: session_token_model.user_id,
        task_id,
        title: model.title,
        description: model.description,
        due_date: model.due_date,
        completed: false,
    }
}

/// Makes the record of a new task under the given identifier.
pub fn new_simple_task(
    model: CreateSimpleTaskRequestModel,
    session_token_model: SessionTokenModel,
    task_id: String,
) -> (task: SimpleTaskModel)
    ensures
        task == drafted(model, session_token_model, task_id),
{
    SimpleTaskModel {
        user_id: session_token_model.user_id,
        task_id,
        title: model.title,
        description: model.description,
        due_date: model.due_date,
        completed: false,
    }
}

/// Makes the record of a new task under a fresh identifier. The record is
/// what the store is then asked to keep.
pub fn create_simple_task(
    model: CreateSimpleTaskRequestModel,
    session_token_model: SessionTokenModel,
) -> (task: SimpleTaskModel)
    ensures
        task == drafted(model, session_token_model, task.task_id),
        is_identifier(task.task_id@),
{
    new_simple_task(model, session_token_model, random_identifier())
}

/// The answer to a request to create a task, from what the store said of
/// keeping the record: the task's identifier, or the failure.
pub fn simple_task_created(task: &SimpleTaskModel, stored: Option<EvelynDatabaseError>) -> (answer:
    Result<CreateSimpleTaskResponseModel, EvelynCoreError>)
    ensures
        match stored {
            Some(e) => answer == Err::<CreateSimpleTaskResponseModel, EvelynCoreError>(
                EvelynCoreError::FailedToCreateSimpleTask(e),
            ),
            None => answer == Ok::<CreateSimpleTaskResponseModel, EvelynCoreError>(
                CreateSimpleTaskResponseModel { task_id: Some(task.task_id), error: None },
            ),
        },
{
    match stored {
        Some(e) => Err(EvelynCoreError::FailedToCreateSimpleTask(e)),
        None => Ok(CreateSimpleTaskResponseModel { task_id: Some(task.task_id.clone()), error: None }),
    }
}

/// The question put to the store when a user lists its tasks.
pub fn simple_task_lookup(
    model: LookupSimpleTaskRequestModel,
    session_token_model: SessionTokenModel,
) -> (lookup: SimpleTaskLookupModel)
    ensures
        lookup == (SimpleTaskLookupModel {
            user_id: session_token_model.user_id,
            limit: model.limit,
            show_completed: model.show_completed,
        }),
{
    SimpleTaskLookupModel {
        user_id: session_token_model.user_id,
        limit: model.limit,
        show_completed: model.show_completed,
    }
}

/// A stored task as a client is told of it: all of it but its owner.
pub open spec fn external(task: SimpleTaskModel) -> SimpleTaskExternalModel {
    SimpleTaskExternalModel {
        task_id: task.task_id,
        title: task.title,
        description: task.description,
        due_date: task.due_date,
        completed: task.completed,
    }
}

/// Which tasks a listing shows: all of them, or only those still to do.
pub open spec fn is_shown(show_completed: bool) -> spec_fn(SimpleTaskModel) -> bool {
    |task: SimpleTaskModel| show_completed || !task.completed
}

/// The first `limit` of the tasks; all of them where `limit` is zero.
pub open spec fn limited(tasks: Seq<SimpleTaskModel>, limit: u32) -> Seq<SimpleTaskModel> {
    if 0 < limit < tasks.len() {
        tasks.take(limit as int)
    } else {
        tasks
    }
}

/// What is listed of tasks that already stand in their order: those that
/// are shown, up to the limit, as a client is told of them.
pub open spec fn selection(tasks: Seq<SimpleTaskModel>, limit: u32, show_completed: bool) -> Seq<
    SimpleTaskExternalModel,
> {
    limited(tasks.filter(is_shown(show_completed)), limit).map_values(
        |task: SimpleTaskModel| external(task),
    )
}

/// The listing of a user's tasks: put in order, then the shown ones, then
/// the first of them up to the limit.
pub open spec fn listing(tasks: Seq<SimpleTaskModel>, limit: u32, show_completed: bool) -> Seq<
    SimpleTaskExternalModel,
> {
    selection(arranged(tasks), limit, show_completed)
}

/// Whether every due date among the tasks names an instant.
pub open spec fn dates_are_readable(tasks: Seq<SimpleTaskModel>) -> bool {
    forall|i: int| 0 <= i < tasks.len() ==> instant_of(#[trigger] tasks[i].due_date@) is Some
}

/// Whether the tasks can be put in order: a list of fewer than two tasks
/// always can, a longer one where every due date is readable.
pub open spec fn can_be_arranged(tasks: Seq<SimpleTaskModel>) -> bool {
    tasks.len() >= 2 ==> dates_are_readable(tasks)
}

/// The instants of the tasks' due dates, in the order of the tasks. A due
/// date that names no instant is given the start of 1970 in its place.
fn due_instants(tasks: &Vec<SimpleTaskModel>) -> (instants: Vec<(i64, u32)>)
    ensures
        instants@.len() == tasks@.len(),
        forall|i: int|
            0 <= i < tasks@.len() && instant_of(tasks@[i].due_date@) is Some
                ==> #[trigger] instants@[i] == instant_of(tasks@[i].due_date@)->0,
{
    let mut instants: Vec<(i64, u32)> = Vec::new();
    let mut i: usize = 0;
    while i < tasks.len()
        invariant
            i <= tasks@.len(),
            instants@.len() == i,
            forall|j: int|
                0 <= j < i && instant_of(tasks@[j].due_date@) is Some ==> #[trigger] instants@[j]
                    == instant_of(tasks@[j].due_date@)->0,
        decreases tasks@.len() - i,
    {
        match parse_instant(tasks[i].due_date.as_str()) {
            Some(instant) => instants.push(instant),
            None => instants.push((0, 0)),
        }
        i = i + 1;
    }
    instants
}

/// Whether the task at `a` is listed before the task at `b`.
fn comes_before(tasks: &Vec<SimpleTaskModel>, instants: &Vec<(i64, u32)>, a: usize, b: usize) -> (before:
    bool)
    requires
        a < tasks@.len(),
        b < tasks@.len(),
        instants@.len() == tasks@.len(),
    ensures
        before == listed_before(tasks@, instants@, a as int, b as int),
{
    let due_a: (i64, u32) = instants[a];
    let due_b: (i64, u32) = instants[b];
    if due_a.0 == due_b.0 && due_a.1 == due_b.1 {
        precedes(tasks[a].title.as_str(), tasks[b].title.as_str())
    } else {
        due_a.0 < due_b.0 || (due_a.0 == due_b.0 && due_a.1 < due_b.1)
    }
}

/// The places as the numbers that they are.
pub open spec fn as_places(places: Seq<usize>) -> Seq<int> {
    places.map_values(|place: usize| place as int)
}

/// The places of the tasks in the order in which they are listed, the
/// tasks being due at the given instants, one instant for each task: by due
/// date, by title among tasks due at the same instant, and as they came
/// among tasks of equal rank.
pub fn arrangement_by(tasks: &Vec<SimpleTaskModel>, instants: &Vec<(i64, u32)>) -> (places: Vec<
    usize,
>)
    requires
        instants@.len() == tasks@.len(),
    ensures
        as_places(places@) == order(tasks@, instants@, tasks@.len() as int),
{
    let mut places: Vec<usize> = Vec::new();
    let mut i: usize = 0;
    proof {
        assert(as_places(places@) =~= order(tasks@, instants@, 0));
    }
    while i < tasks.len()
        invariant
            i <= tasks@.len(),
            instants@.len() == tasks@.len(),
            as_places(places@) == order(tasks@, instants@, i as int),
        decreases tasks@.len() - i,
    {
        let ghost placed = as_places(places@);
        proof {
            lemma_order_names_each_place_once(tasks@, instants@, i as int);
        }
        let mut at: usize = places.len();
        proof {
            assert(placed.take(at as int) =~= placed);
        }
        while at > 0 && comes_before(tasks, instants, i, places[at - 1])
            invariant
                at <= places@.len(),
                i < tasks@.len(),
                places@.len() == i,
                instants@.len() == tasks@.len(),
                placed == as_places(places@),
                forall|k: int| 0 <= k < placed.len() ==> 0 <= #[trigger] placed[k] < i,
                place_of(tasks@, instants@, placed, i as int) == place_of(
                    tasks@,
                    instants@,
                    placed.take(at as int),
                    i as int,
                ),
            decreases at,
        {
            assert(placed.take(at as int).drop_last() =~= placed.take(at - 1));
            at = at - 1;
        }
        proof {
            assert(place_of(tasks@, instants@, placed, i as int) == at);
            assert(as_places(places@.insert(at as int, i)) =~= placed.insert(at as int, i as int));
        }
        places.insert(at, i);
        i = i + 1;
    }
    places
}

/// What is listed of tasks that are due at the given instants, one
/// instant for each task: the tasks in their order, of them the shown ones,
/// of these the first up to the limit, as a client is told of them.
pub fn listing_by(
    tasks: &Vec<SimpleTaskModel>,
    instants: &Vec<(i64, u32)>,
    limit: u32,
    show_completed: bool,
) -> (shown: Vec<SimpleTaskExternalModel>)
    requires
        instants@.len() == tasks@.len(),
    ensures
        shown@ == selection(arranged_by(tasks@, instants@), limit, show_completed),
{
    let places: Vec<usize> = arrangement_by(tasks, instants);
    let ghost ordered = arranged_by(tasks@, instants@);
    let mut shown: Vec<SimpleTaskExternalModel> = Vec::new();
    let mut k: usize = 0;
    proof {
        lemma_order_names_each_place_once(tasks@, instants@, tasks@.len() as int);
        assert forall|j: int| 0 <= j < places@.len() implies #[trigger] places@[j] < tasks@.len() by {
            assert(as_places(places@)[j] == places@[j]);
        }
        reveal(Seq::filter);
        assert(ordered.take(0) =~= Seq::<SimpleTaskModel>::empty());
        assert(selection(ordered.take(0), limit, show_completed)
            =~= Seq::<SimpleTaskExternalModel>::empty());
    }
    while k < places.len()
        invariant
            k <= places@.len(),
            places@.len() == tasks@.len(),
            forall|j: int| 0 <= j < places@.len() ==> #[trigger] places@[j] < tasks@.len(),
            ordered == picked(tasks@, as_places(places@)),
            shown@ == selection(ordered.take(k as int), limit, show_completed),
            shown@.len() == limited(ordered.take(k as int).filter(is_shown(show_completed)), limit).len(),
        decreases places@.len() - k,
    {
        let task: &SimpleTaskModel = &tasks[places[k]];
        proof {
            let before = ordered.take(k as int);
            let now = ordered.take(k + 1);
            let keep = is_shown(show_completed);
            reveal(Seq::filter);
            assert(now.drop_last() =~= before);
            assert(now.last() == *task);
            before.lemma_filter_len(keep);
            if keep(*task) {
                assert(now.filter(keep) == before.filter(keep).push(*task));
                if limit == 0 || before.filter(keep).len() < limit {
                    assert(selection(now, limit, show_completed) =~= selection(
                        before,
                        limit,
                        show_completed,
                    ).push(external(*task)));
                } else {
                    assert(limited(now.filter(keep), limit) =~= limited(before.filter(keep), limit));
                }
            } else {
                assert(now.filter(keep) == before.filter(keep));
            }
        }
        if (show_completed || !task.completed) && (limit == 0 || shown.len() < limit as usize) {
            shown.push(
                SimpleTaskExternalModel {
                    task_id: task.task_id.clone(),
                    title: task.title.clone(),
                    description: task.description.clone(),
                    due_date: task.due_date.clone(),
                    completed: task.completed,
                },
            );
        }
        k = k + 1;
    }
    proof {
        assert(ordered.take(places@.len() as int) =~= ordered);
    }
    shown
}

/// The order of fewer than two tasks does not depend on when they are due.
proof fn lemma_few_tasks_need_no_instants(
    tasks: Seq<SimpleTaskModel>,
    one: Seq<(i64, u32)>,
    other: Seq<(i64, u32)>,
)
    requires
        tasks.len() < 2,
    ensures
        arranged_by(tasks, one) == arranged_by(tasks, other),
{
    reveal_with_fuel(order, 3);
    reveal_with_fuel(place_of, 2);
    assert(order(tasks, one, tasks.len() as int) =~= order(tasks, other, tasks.len() as int));
}

/// The answer to a request to list tasks, from what the store found: the
/// listing, or the failure of the lookup.
pub fn lookup_simple_tasks(
    lookup: &SimpleTaskLookupModel,
    found: Result<Vec<SimpleTaskModel>, EvelynDatabaseError>,
) -> (answer: Result<LookupSimpleTaskResponseModel, EvelynCoreError>)
    requires
        found matches Ok(tasks) ==> can_be_arranged(tasks@),
    ensures
        answers_lookup(*lookup, found, answer),
{
    match found {
        Ok(tasks) => {
            let instants: Vec<(i64, u32)> = due_instants(&tasks);
            proof {
                if tasks@.len() >= 2 {
                    assert(instants@ =~= instants_of(tasks@));
                } else {
                    lemma_few_tasks_need_no_instants(tasks@, instants@, instants_of(tasks@));
                }
            }
            let shown: Vec<SimpleTaskExternalModel> = listing_by(
                &tasks,
                &instants,
                lookup.limit,
                lookup.show_completed,
            );
            Ok(LookupSimpleTaskResponseModel { simple_tasks: shown, error: None })
        },
        Err(e) => Err(EvelynCoreError::FailedToLookupSimpleTask(e)),
    }
}

/// Whether `answer` is the answer to a request to list tasks, given what
/// the store found.
pub open spec fn answers_lookup(
    lookup: SimpleTaskLookupModel,
    found: Result<Vec<SimpleTaskModel>, EvelynDatabaseError>,
    answer: Result<LookupSimpleTaskResponseModel, EvelynCoreError>,
) -> bool {
    match found {
        Ok(tasks) => answer matches Ok(response) && response.error is None
            && response.simple_tasks@ == listing(tasks@, lookup.limit, lookup.show_completed),
        Err(e) => answer == Err::<LookupSimpleTaskResponseModel, EvelynCoreError>(
            EvelynCoreError::FailedToLookupSimpleTask(e),
        ),
    }
}

/// Whether the tasks can be put in order.
pub fn has_readable_dates(tasks: &Vec<SimpleTaskModel>) -> (readable: bool)
    ensures
        readable == can_be_arranged(tasks@),
{
    if tasks.len() < 2 {
        return true;
    }
    let mut i: usize = 0;
    while i < tasks.len()
        invariant
            i <= tasks@.len(),
            tasks@.len() >= 2,
            forall|j: int| 0 <= j < i ==> instant_of(#[trigger] tasks@[j].due_date@) is Some,
        decreases tasks@.len() - i,
    {
        if parse_instant(tasks[i].due_date.as_str()).is_none() {
            return false;
        }
        i = i + 1;
    }
    true
}

/// Answers a request to list tasks where the tasks that the store found can
/// be put in order, and says `None` where they cannot: a stored due date
/// that names no instant is a fault in the store, not an answer.
pub fn try_lookup_simple_tasks(
    lookup: &SimpleTaskLookupModel,
    found: Result<Vec<SimpleTaskModel>, EvelynDatabaseError>,
) -> (answer: Option<Result<LookupSimpleTaskResponseModel, EvelynCoreError>>)
    ensures
        match answer {
            Some(given) => answers_lookup(*lookup, found, given),
            None => found matches Ok(tasks) && !can_be_arranged(tasks@),
        },
        answer is None <==> (found matches Ok(tasks) && !can_be_arranged(tasks@)),
{
    let readable: bool = match &found {
        Ok(tasks) => has_readable_dates(tasks),
        Err(_) => true,
    };
    if readable {
        Some(lookup_simple_tasks(lookup, found))
    } else {
        None
    }
}

/// The change put to the store when a task is updated: the new values, for
/// the task of who asked.
pub fn update_simple_task(
    model: UpdateSimpleTaskRequestModel,
    session_token_model: SessionTokenModel,
) -> (update: SimpleTaskUpdateModel)
    ensures
        update == (SimpleTaskUpdateModel {
            user_id: session_token_model.user_id,
            task_id: model.task_id,
            title: model.new_title,
            description: model.new_description,
            due_date: model.new_due_date,
            completed: model.new_completed,
        }),
{
    SimpleTaskUpdateModel {
        user_id: session_token_model.user_id,
        task_id: model.task_id,
        title: model.new_title,
        description: model.new_description,
        due_date: model.new_due_date,
        completed: model.new_completed,
    }
}

/// What is reported of an update, from what the store said of it.
pub fn simple_task_updated(stored: Option<EvelynDatabaseError>) -> (failure: Option<EvelynCoreError>)
    ensures
        match stored {
            Some(e) => failure == Some(EvelynCoreError::FailedToUpdateSimpleTask(e)),
            None => failure is None,
        },
{
    match stored {
        None => None,
        Some(e) => Some(EvelynCoreError::FailedToUpdateSimpleTask(e)),
    }
}

/// What is reported of removing a task, from what the store said of it.
pub fn remove(stored: Option<EvelynDatabaseError>) -> (failure: Option<EvelynCoreError>)
    ensures
        match stored {
            Some(e) => failure == Some(EvelynCoreError::FailedToRemoveSimpleTask(e)),
            None => failure is None,
        },
{
    match stored {
        None => None,
        Some(e) => Some(EvelynCoreError::FailedToRemoveSimpleTask(e)),
    }
}

} // verus!
