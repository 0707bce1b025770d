use vstd::prelude::*;

use crate::error::Error;
use crate::prompt::{build_prompt, entries_wf, prompt_model, truncated, views_of};
use crate::provider::{Message, MessageView, Usage};
use crate::store::{sat_add, Store};
use crate::text::{assistant_entry, assistant_prefix, str_eq, user_entry, user_prefix};

verus! {

/// The payload of one completion task.
pub enum CompletionType {
    Text { msg: String },
    Image { data: Vec<u8> },
}

/// Mathematical value of a [`CompletionType`].
pub enum CompletionTypeView {
    Text(Seq<char>),
    Image(Seq<u8>),
}

impl View for CompletionType {
    type V = CompletionTypeView;

    open spec fn view(&self) -> CompletionTypeView {
        match self {
            CompletionType::Text { msg } => CompletionTypeView::Text(msg@),
            CompletionType::Image { data } => CompletionTypeView::Image(data@),
        }
    }
}

/// One unit of work: a single user input awaiting a single generated
/// reply.  The response channel that correlates the task with its
/// submitter lives outside the library.
pub struct CompletionTask {
    pub chat_id: i64,
    pub user_id: u64,
    pub data: CompletionType,
}

/// The configuration the pipeline consumes.
pub struct PipelineConfig {
    pub system_prompt: String,
    pub context_length: usize,
    pub reset_msg: String,
}

impl PipelineConfig {
    /// The context length is a positive number of history entries.
    pub open spec fn wf(self) -> bool {
        self.context_length >= 1
    }
}

/// A mutation of one chat's stored history.
pub enum StoreOp {
    /// Remove the most recent entry (a no-op on an empty history).
    PopLast,
    /// Remove every entry.
    Clear,
    /// Add an entry at the end.
    Append(String),
}

/// Mathematical value of a [`StoreOp`].
pub enum StoreOpView {
    PopLast,
    Clear,
    Append(Seq<char>),
}

impl View for StoreOp {
    type V = StoreOpView;

    open spec fn view(&self) -> StoreOpView {
        match self {
            StoreOp::PopLast => StoreOpView::PopLast,
            StoreOp::Clear => StoreOpView::Clear,
            StoreOp::Append(e) => StoreOpView::Append(e@),
        }
    }
}

/// The mathematical values of a sequence of store operations.
pub open spec fn ops_views(ops: Seq<StoreOp>) -> Seq<StoreOpView> {
    Seq::new(ops.len(), |i: int| ops[i]@)
}

/// How the worker goes on once the store operations are applied:
/// answer at once, or call the provider with a prompt.
pub enum PlanAction {
    Respond(String),
    Call(Vec<Message>),
}

/// What one task does to its chat, decided before anything is mutated:
/// either it fails, or it applies some store operations and then
/// answers at once or calls the provider.
pub enum PlanModel {
    Fail(Error),
    Respond { ops: Seq<StoreOpView>, msg: Seq<char> },
    Call { ops: Seq<StoreOpView>, prompt: Seq<MessageView> },
}

/// The executable plan for one task.
pub struct TaskPlan {
    pub store_ops: Vec<StoreOp>,
    pub action: PlanAction,
}

/// The `/retry` command: resend the existing history unchanged.
pub open spec fn retry_cmd() -> Seq<char> {
    "/retry"@
}

/// The `/regenerate` command: drop the last exchange's reply and ask
/// again.
pub open spec fn regenerate_cmd() -> Seq<char> {
    "/regenerate"@
}

/// The `/reset` command: clear the chat's stored history.
pub open spec fn reset_cmd() -> Seq<char> {
    "/reset"@
}

/// The command semantics of the worker as one total function: what
/// plan a task with payload `data` makes against stored history `h`.
pub open spec fn plan_model(
    sys: Seq<char>,
    context_length: nat,
    reset: Seq<char>,
    h: Seq<Seq<char>>,
    data: CompletionTypeView,
) -> PlanModel {
    match data {
        CompletionTypeView::Image(_) => PlanModel::Fail(Error::UnsupportedPayload),
        CompletionTypeView::Text(t) => match prompt_model(sys, h, context_length) {
            None => PlanModel::Fail(Error::MalformedHistoryEntry),
            Some(base) => if t == retry_cmd() {
                PlanModel::Call { ops: Seq::empty(), prompt: base }
            } else if t == regenerate_cmd() {
                PlanModel::Call {
                    ops: seq![StoreOpView::PopLast],
                    prompt: if base.len() > 1 {
                        base.drop_last()
                    } else {
                        base
                    },
                }
            } else if t == reset_cmd() {
                PlanModel::Respond { ops: seq![StoreOpView::Clear], msg: reset }
            } else {
                PlanModel::Call {
                    ops: seq![StoreOpView::Append(user_prefix() + t)],
                    prompt: base.push(MessageView::User(t)),
                }
            },
        },
    }
}

/// Decides one task against a fetched history: which store mutations to
/// make, and whether to answer at once or call the provider, without
/// touching anything.
pub fn plan_task(cfg: &PipelineConfig, history: &Vec<String>, data: &CompletionType) -> (r: Result<
    TaskPlan,
    Error,
>)
    requires
        cfg.wf(),
    ensures
        ({
            let m = plan_model(
                cfg.system_prompt@,
                cfg.context_length as nat,
                cfg.reset_msg@,
                history.deep_view(),
                data@,
            );
            match r {
                Ok(plan) => match plan.action {
                    PlanAction::Respond(s) => m == (PlanModel::Respond {
                        ops: ops_views(plan.store_ops@),
                        msg: s@,
                    }),
                    PlanAction::Call(p) => m == (PlanModel::Call {
                        ops: ops_views(plan.store_ops@),
                        prompt: views_of(p@),
                    }),
                },
                Err(e) => m == PlanModel::Fail(e),
            }
        }),
{
    let text = match data {
        CompletionType::Text { msg } => msg,
        CompletionType::Image { .. } => {
            return Err(Error::UnsupportedPayload);
        },
    };
    let base = match build_prompt(cfg.system_prompt.as_str(), history, cfg.context_length) {
        Ok(p) => p,
        Err(e) => {
            return Err(e);
        },
    };
    if str_eq(text.as_str(), "/retry") {
        let ops: Vec<StoreOp> = Vec::new();
        proof {
            assert(ops_views(ops@) =~= Seq::<StoreOpView>::empty());
        }
        Ok(TaskPlan { store_ops: ops, action: PlanAction::Call(base) })
    } else if str_eq(text.as_str(), "/regenerate") {
        let mut prompt = base;
        let ghost base_views = views_of(prompt@);
        if prompt.len() > 1 {
            prompt.pop();
            proof {
                assert(views_of(prompt@) =~= base_views.drop_last());
            }
        }
        let mut ops: Vec<StoreOp> = Vec::new();
        ops.push(StoreOp::PopLast);
        proof {
            assert(ops_views(ops@) =~= seq![StoreOpView::PopLast]);
        }
        Ok(TaskPlan { store_ops: ops, action: PlanAction::Call(prompt) })
    } else if str_eq(text.as_str(), "/reset") {
        let mut ops: Vec<StoreOp> = Vec::new();
        ops.push(StoreOp::Clear);
        proof {
            assert(ops_views(ops@) =~= seq![StoreOpView::Clear]);
        }
        Ok(TaskPlan { store_ops: ops, action: PlanAction::Respond(cfg.reset_msg.clone()) })
    } else {
        let mut prompt = base;
        let ghost base_views = views_of(prompt@);
        prompt.push(Message::User(text.clone()));
        proof {
            assert(views_of(prompt@) =~= base_views.push(MessageView::User(text@)));
        }
        let mut ops: Vec<StoreOp> = Vec::new();
        ops.push(StoreOp::Append(user_entry(text.as_str())));
        proof {
            assert(ops_views(ops@) =~= seq![StoreOpView::Append(user_prefix() + text@)]);
        }
        Ok(TaskPlan { store_ops: ops, action: PlanAction::Call(prompt) })
    }
}

/// What one store operation does to a chat's history.
pub open spec fn apply_op_model(h: Seq<Seq<char>>, op: StoreOpView) -> Seq<Seq<char>> {
    match op {
        StoreOpView::PopLast => if h.len() > 0 {
            h.drop_last()
        } else {
            h
        },
        StoreOpView::Clear => Seq::empty(),
        StoreOpView::Append(e) => h.push(e),
    }
}

/// What a sequence of store operations, applied in order, does to a
/// chat's history.
pub open spec fn apply_ops_model(h: Seq<Seq<char>>, ops: Seq<StoreOpView>) -> Seq<Seq<char>>
    decreases ops.len(),
{
    if ops.len() == 0 {
        h
    } else {
        apply_ops_model(apply_op_model(h, ops[0]), ops.skip(1))
    }
}

/// A single store operation applied as a sequence is that operation.
pub proof fn lemma_apply_ops_singleton(h: Seq<Seq<char>>, op: StoreOpView)
    ensures
        apply_ops_model(h, seq![op]) == apply_op_model(h, op),
{
    reveal_with_fuel(apply_ops_model, 2);
    assert(seq![op].skip(1) =~= Seq::<StoreOpView>::empty());
}

/// Applying `ops` and then one more operation is applying the longer
/// sequence.
pub proof fn lemma_apply_ops_snoc(h: Seq<Seq<char>>, ops: Seq<StoreOpView>, op: StoreOpView)
    ensures
        apply_ops_model(h, ops.push(op)) == apply_op_model(apply_ops_model(h, ops), op),
    decreases ops.len(),
{
    if ops.len() == 0 {
        reveal_with_fuel(apply_ops_model, 2);
        assert(ops.push(op)[0] == op);
        assert(ops.push(op).skip(1) =~= Seq::<StoreOpView>::empty());
    } else {
        assert(ops.push(op)[0] == ops[0]);
        assert(ops.push(op).skip(1) =~= ops.skip(1).push(op));
        lemma_apply_ops_snoc(apply_op_model(h, ops[0]), ops.skip(1), op);
    }
}

/// Applies a plan's store operations, in order, to one chat's history.
pub fn apply_store_ops(store: &mut Store, chat_id: i64, ops: &Vec<StoreOp>)
    ensures
        final(store).history(chat_id) == apply_ops_model(
            old(store).history(chat_id),
            ops_views(ops@),
        ),
        forall|c: i64| c != chat_id ==> final(store).history(c) == old(store).history(c),
        forall|u: u64| final(store).user(u) == old(store).user(u),
{
    let ghost s0: Store = *store;
    let n = ops.len();
    let mut i: usize = 0;
    while i < n
        invariant
            0 <= i <= n,
            n == ops@.len(),
            store.history(chat_id) == apply_ops_model(
                s0.history(chat_id),
                ops_views(ops@).take(i as int),
            ),
            forall|c: i64| c != chat_id ==> store.history(c) == s0.history(c),
            forall|u: u64| store.user(u) == s0.user(u),
        decreases n - i,
    {
        match &ops[i] {
            StoreOp::PopLast => {
                let _ = store.pop_message(chat_id);
            },
            StoreOp::Clear => {
                store.clear_messages(chat_id);
            },
            StoreOp::Append(e) => {
                store.add_message(chat_id, e.clone());
            },
        }
        proof {
            lemma_apply_ops_snoc(
                s0.history(chat_id),
                ops_views(ops@).take(i as int),
                ops@[i as int]@,
            );
            assert(ops_views(ops@).take(i + 1) =~= ops_views(ops@).take(i as int).push(
                ops@[i as int]@,
            ));
        }
        i += 1;
    }
    proof {
        assert(ops_views(ops@).take(n as int) =~= ops_views(ops@));
    }
}

/// Runs one completion task end to end against an in-memory store,
/// with the provider's answer for the planned prompt handed in as a
/// value: plan, mutate the store, and on a provider success record the
/// usage and persist the reply.
pub fn run_task(
    store: &mut Store,
    cfg: &PipelineConfig,
    task: &CompletionTask,
    reply: Result<(String, Option<Usage>), Error>,
) -> (r: Result<String, Error>)
    requires
        cfg.wf(),
    ensures
        ({
            let m = plan_model(
                cfg.system_prompt@,
                cfg.context_length as nat,
                cfg.reset_msg@,
                old(store).history(task.chat_id),
                task.data@,
            );
            match m {
                PlanModel::Fail(e) => {
                    &&& r == Err::<String, Error>(e)
                    &&& forall|c: i64| final(store).history(c) == old(store).history(c)
                    &&& forall|u: u64| final(store).user(u) == old(store).user(u)
                },
                PlanModel::Respond { ops, msg } => {
                    &&& r matches Ok(s) && s@ == msg
                    &&& final(store).history(task.chat_id) == apply_ops_model(
                        old(store).history(task.chat_id),
                        ops,
                    )
                    &&& forall|c: i64|
                        c != task.chat_id ==> final(store).history(c) == old(store).history(c)
                    &&& forall|u: u64| final(store).user(u) == old(store).user(u)
                },
                PlanModel::Call { ops, prompt } => {
                    let pre = apply_ops_model(old(store).history(task.chat_id), ops);
                    match reply {
                        Ok((text, usage)) => {
                            &&& r matches Ok(s) && s@ == text@
                            &&& final(store).history(task.chat_id) == pre.push(
                                assistant_prefix() + text@,
                            )
                            &&& forall|c: i64|
                                c != task.chat_id ==> final(store).history(c) == old(
                                    store,
                                ).history(c)
                            &&& match usage {
                                Some(u) => {
                                    &&& final(store).user(task.user_id).enabled == old(
                                        store,
                                    ).user(task.user_id).enabled
                                    &&& final(store).user(task.user_id).completion_tokens
                                        == sat_add(
                                        old(store).user(task.user_id).completion_tokens as int,
                                        u.completion as int,
                                    )
                                    &&& final(store).user(task.user_id).prompt_tokens == sat_add(
                                        old(store).user(task.user_id).prompt_tokens as int,
                                        u.prompt as int,
                                    )
                                    &&& forall|us: u64|
                                        us != task.user_id ==> final(store).user(us) == old(
                                            store,
                                        ).user(us)
                                },
                                None => forall|us: u64|
                                    final(store).user(us) == old(store).user(us),
                            }
                        },
                        Err(e) => {
                            &&& r == Err::<String, Error>(e)
                            &&& final(store).history(task.chat_id) == pre
                            &&& forall|c: i64|
                                c != task.chat_id ==> final(store).history(c) == old(
                                    store,
                                ).history(c)
                            &&& forall|u: u64| final(store).user(u) == old(store).user(u)
                        },
                    }
                },
            }
        }),
{
    let history = store.get_messages(task.chat_id);
    let plan = match plan_task(cfg, &history, &task.data) {
        Ok(p) => p,
        Err(e) => {
            return Err(e);
        },
    };
    apply_store_ops(store, task.chat_id, &plan.store_ops);
    match plan.action {
        PlanAction::Respond(s) => Ok(s),
        PlanAction::Call(_) => match reply {
            Ok((text, usage)) => {
                match usage {
                    Some(u) => store.increase_token(task.user_id, u.completion, u.prompt),
                    None => (),
                }
                let entry = assistant_entry(text.as_str());
                store.add_message(task.chat_id, entry);
                Ok(text)
            },
            Err(e) => Err(e),
        },
    }
}

/// After `/reset` the chat's stored history is empty and the pipeline
/// answers with the fixed reset string at once: the plan makes no
/// provider call.
pub proof fn lemma_reset_clears(sys: Seq<char>, context_length: nat, reset: Seq<char>, h: Seq<
    Seq<char>,
>)
    requires
        entries_wf(truncated(h, context_length)),
    ensures
        ({
            let m = plan_model(sys, context_length, reset, h, CompletionTypeView::Text(
                reset_cmd(),
            ));
            &&& m matches PlanModel::Respond { ops, msg } && ops == seq![StoreOpView::Clear]
                && msg == reset && apply_ops_model(h, ops) == Seq::<Seq<char>>::empty()
        }),
{
    lemma_commands_distinct();
    lemma_apply_ops_singleton(h, StoreOpView::Clear);
}

/// `/retry` plans no store mutation at all: the history that the
/// provider call sees is the stored history unchanged, and the prompt
/// is the base prompt with nothing appended.
pub proof fn lemma_retry_resends_history(sys: Seq<char>, context_length: nat, reset: Seq<char>, h:
    Seq<Seq<char>>)
    requires
        entries_wf(truncated(h, context_length)),
    ensures
        ({
            let m = plan_model(sys, context_length, reset, h, CompletionTypeView::Text(
                retry_cmd(),
            ));
            &&& m matches PlanModel::Call { ops, prompt } && ops == Seq::<StoreOpView>::empty()
                && apply_ops_model(h, ops) == h && prompt == prompt_model(
                sys,
                h,
                context_length,
            ).unwrap()
        }),
{
}

/// `/regenerate` on a non-empty history removes exactly the most
/// recent stored entry before the provider call, and the prompt is the
/// base prompt without its last message.
pub proof fn lemma_regenerate_pops_one(
    sys: Seq<char>,
    context_length: nat,
    reset: Seq<char>,
    h: Seq<Seq<char>>,
)
    requires
        entries_wf(truncated(h, context_length)),
        h.len() > 0,
        context_length >= 1,
    ensures
        ({
            let m = plan_model(sys, context_length, reset, h, CompletionTypeView::Text(
                regenerate_cmd(),
            ));
            &&& m matches PlanModel::Call { ops, prompt } && ops == seq![StoreOpView::PopLast]
                && apply_ops_model(h, ops) == h.drop_last() && prompt == prompt_model(
                sys,
                h,
                context_length,
            ).unwrap().drop_last()
        }),
{
    lemma_commands_distinct();
    lemma_apply_ops_singleton(h, StoreOpView::PopLast);
    assert(truncated(h, context_length).len() >= 1);
}

/// `/regenerate` on an empty history: the stored pop is a no-op and
/// the prompt is just the system message.
pub proof fn lemma_regenerate_on_empty(sys: Seq<char>, context_length: nat, reset: Seq<char>)
    ensures
        ({
            let m = plan_model(
                sys,
                context_length,
                reset,
                Seq::empty(),
                CompletionTypeView::Text(regenerate_cmd()),
            );
            &&& m matches PlanModel::Call { ops, prompt } && ops == seq![StoreOpView::PopLast]
                && apply_ops_model(Seq::empty(), ops) == Seq::<Seq<char>>::empty() && prompt
                == seq![MessageView::System(sys)]
        }),
{
    lemma_commands_distinct();
    let h: Seq<Seq<char>> = Seq::empty();
    assert(truncated(h, context_length) =~= h);
    lemma_apply_ops_singleton(h, StoreOpView::PopLast);
    let base = prompt_model(sys, h, context_length).unwrap();
    assert(base =~= seq![MessageView::System(sys)]);
}

/// The three fixed commands are pairwise distinct literals.
proof fn lemma_commands_distinct()
    ensures
        retry_cmd() != regenerate_cmd(),
        retry_cmd() != reset_cmd(),
        regenerate_cmd() != reset_cmd(),
{
    reveal_strlit("/retry");
    reveal_strlit("/regenerate");
    reveal_strlit("/reset");
    assert(retry_cmd().len() != regenerate_cmd().len());
    assert(regenerate_cmd().len() != reset_cmd().len());
    assert(retry_cmd()[3] == 't' && reset_cmd()[3] == 's');
}

} // verus!

