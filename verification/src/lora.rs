//! Low-rank adaptation of whole modules.
//!
//! [`LoraConfig`] adapts the matrices of a module, [`merge_lora`] makes the
//! adaptations part of the matrices, for inference, and [`freeze_non_lora`]
//! leaves only the adaptations to be trained.

use burn_tensor::Scalar;
use vstd::prelude::*;

use crate::module::{map_step, mappable, mapped, Module, ModuleEvent, ModuleMapper};
use crate::param::base::Param;
use crate::param::lora::LoraTransform;
use crate::tensor::{Bool, Device, Float, Int, Tensor};
use crate::text::{dotted, join_dotted, occurs, text_contains, texts};

verus! {

/// How the matrices of a module are adapted.
#[derive(Debug)]
pub struct LoraConfig {
    /// The rank of the adaptations.
    pub rank: usize,
    /// What the adaptations are scaled by, divided by the rank.
    pub alpha: Scalar,
    /// Patterns of which the path of a matrix has to contain one. If there are
    /// none, all matrices are adapted.
    pub target_modules: Vec<String>,
}

/// The characters of each text.
pub open spec fn str_texts(strings: Seq<&str>) -> Seq<Seq<char>> {
    Seq::new(strings.len(), |i: int| strings[i]@)
}

/// Whether the matrix at `path` is to be adapted: there are no patterns, or the
/// path, with dots between its names, contains one of them.
pub open spec fn targeted(targets: Seq<Seq<char>>, path: Seq<Seq<char>>) -> bool {
    targets.len() == 0 || exists|i: int|
        0 <= i < targets.len() && occurs(dotted(path), #[trigger] targets[i])
}

/// The names of the parts that have begun and not ended after `events`.
pub open spec fn path_after<C>(events: Seq<ModuleEvent<C>>) -> Seq<Seq<char>>
    decreases events.len(),
{
    if events.len() == 0 {
        seq![]
    } else {
        let path = path_after(events.drop_last());
        match events.last() {
            ModuleEvent::Enter { name, container_type } => path.push(name),
            ModuleEvent::Exit { name, container_type } => popped(path),
            _ => path,
        }
    }
}

/// The names without the last one, if there is one.
pub open spec fn popped(path: Seq<Seq<char>>) -> Seq<Seq<char>> {
    if path.len() == 0 {
        path
    } else {
        path.drop_last()
    }
}

impl Clone for LoraConfig {
    /// A configuration with the same contents.
    fn clone(&self) -> (out: Self)
        ensures
            out.rank == self.rank,
            out.alpha == self.alpha,
            texts(out.target_modules@) == texts(self.target_modules@),
    {
        let mut patterns: Vec<String> = Vec::new();
        for i in 0..self.target_modules.len()
            invariant
                texts(patterns@) == texts(self.target_modules@).take(i as int),
        {
            let ghost before = patterns@;
            patterns.push(self.target_modules[i].clone());
            assert(texts(patterns@) == texts(before).push(self.target_modules@[i as int]@));
        }
        assert(texts(self.target_modules@).take(self.target_modules@.len() as int) == texts(
            self.target_modules@,
        ));
        LoraConfig { rank: self.rank, alpha: self.alpha, target_modules: patterns }
    }
}

impl LoraConfig {
    /// A configuration that adapts all matrices.
    pub fn new(rank: usize, alpha: Scalar) -> (out: Self)
        ensures
            out.rank == rank,
            out.alpha == alpha,
            out.target_modules@ == Seq::<String>::empty(),
    {
        LoraConfig { rank, alpha, target_modules: Vec::new() }
    }

    /// The configuration with these patterns in place of those it had.
    pub fn with_target_modules(self, target_modules: Vec<&str>) -> (out: Self)
        ensures
            out.rank == self.rank,
            out.alpha == self.alpha,
            texts(out.target_modules@) == str_texts(target_modules@),
    {
        let mut patterns: Vec<String> = Vec::new();
        for i in 0..target_modules.len()
            invariant
                texts(patterns@) == str_texts(target_modules@).take(i as int),
        {
            let ghost before = patterns@;
            patterns.push(target_modules[i].to_owned());
            assert(texts(patterns@) == texts(before).push(target_modules@[i as int]@));
        }
        assert(str_texts(target_modules@).take(target_modules@.len() as int) == str_texts(
            target_modules@,
        ));
        LoraConfig { rank: self.rank, alpha: self.alpha, target_modules: patterns }
    }
}

/// Adapts the matrices that it meets at a targeted path.
pub struct LoraInjector<'a> {
    /// The rank of the adaptations.
    pub rank: usize,
    /// What the adaptations are scaled by, divided by the rank.
    pub alpha: Scalar,
    /// The patterns.
    pub target_modules: &'a Vec<String>,
    /// Where the factors are allocated.
    pub device: Device,
    /// The names of the parts that have begun and not ended.
    pub path_stack: Vec<String>,
}

impl<'a> LoraInjector<'a> {
    /// An injector at the root of a module.
    pub fn new(
        rank: usize,
        alpha: Scalar,
        target_modules: &'a Vec<String>,
        device: &Device,
    ) -> (out: Self)
        ensures
            out.rank == rank,
            out.alpha == alpha,
            out.target_modules == target_modules,
            out.device == *device,
            out.path_stack@ == Seq::<String>::empty(),
    {
        LoraInjector { rank, alpha, target_modules, device: *device, path_stack: Vec::new() }
    }

    /// The patterns.
    pub open spec fn targets(self) -> Seq<Seq<char>> {
        texts(self.target_modules@)
    }

    /// The names of the parts that have begun and not ended.
    pub open spec fn path(self) -> Seq<Seq<char>> {
        texts(self.path_stack@)
    }

    /// Whether `other` adapts in the same way.
    pub open spec fn same_config(self, other: Self) -> bool {
        &&& self.rank == other.rank
        &&& self.alpha == other.alpha
        &&& self.target_modules == other.target_modules
        &&& self.device == other.device
    }

    /// Tells whether a matrix at the present path is to be adapted.
    pub fn path_matches(&self) -> (out: bool)
        ensures
            out == targeted(self.targets(), self.path()),
    {
        if self.target_modules.len() == 0 {
            return true;
        }
        let path = join_dotted(&self.path_stack);
        for i in 0..self.target_modules.len()
            invariant
                path@ == dotted(self.path()),
                forall|k: int|
                    0 <= k < i ==> !occurs(dotted(self.path()), #[trigger] self.targets()[k]),
        {
            if text_contains(path.as_str(), self.target_modules[i].as_str()) {
                assert(occurs(dotted(self.path()), self.targets()[i as int]));
                return true;
            }
        }
        false
    }
}

impl<'a, C> ModuleMapper<C> for LoraInjector<'a> {
    open spec fn entered(
        pre: Self,
        name: Seq<char>,
        container_type: Seq<char>,
        post: Self,
    ) -> bool {
        pre.same_config(post) && post.path() == pre.path().push(name)
    }

    open spec fn exited(
        pre: Self,
        name: Seq<char>,
        container_type: Seq<char>,
        post: Self,
    ) -> bool {
        pre.same_config(post) && post.path() == popped(pre.path())
    }

    open spec fn accepts(param: Param<Tensor<Float>, C>) -> bool {
        param.shaped()
    }

    open spec fn float_mapped(
        pre: Self,
        param: Param<Tensor<Float>, C>,
        post: Self,
        out: Param<Tensor<Float>, C>,
    ) -> bool {
        &&& post == pre
        &&& if param.lazy_dims().len() == 2 && targeted(pre.targets(), pre.path()) {
            Param::newly_adapted(param, pre.rank, pre.alpha, pre.device, out)
        } else {
            out == param
        }
    }

    open spec fn int_mapped(
        pre: Self,
        param: Param<Tensor<Int>, C>,
        post: Self,
        out: Param<Tensor<Int>, C>,
    ) -> bool {
        post == pre && out == param
    }

    open spec fn bool_mapped(
        pre: Self,
        param: Param<Tensor<Bool>, C>,
        post: Self,
        out: Param<Tensor<Bool>, C>,
    ) -> bool {
        post == pre && out == param
    }

    open spec fn updates_lora(&self) -> bool {
        false
    }

    fn enter_module(&mut self, name: &str, container_type: &str) {
        self.path_stack.push(name.to_owned());
        assert(self.path() == old(self).path().push(name@));
    }

    fn exit_module(&mut self, name: &str, container_type: &str) {
        let _ = self.path_stack.pop();
        assert(self.path() == popped(old(self).path()));
    }

    fn map_float(&mut self, param: Param<Tensor<Float>, C>) -> (out: Param<Tensor<Float>, C>) {
        if param.lazy_rank() == 2 && self.path_matches() {
            param.with_lora(self.rank, self.alpha, &self.device)
        } else {
            param
        }
    }

    fn map_int(&mut self, param: Param<Tensor<Int>, C>) -> (out: Param<Tensor<Int>, C>) {
        param
    }

    fn map_bool(&mut self, param: Param<Tensor<Bool>, C>) -> (out: Param<Tensor<Bool>, C>) {
        param
    }

    fn updates_lora_params(&self) -> (out: bool) {
        false
    }
}

/// Whether the values of all the initialised parameters among `events` can be
/// evaluated.
pub open spec fn all_shaped<C>(events: Seq<ModuleEvent<C>>) -> bool {
    forall|i: int|
        0 <= i < events.len() ==> (#[trigger] events[i] matches ModuleEvent::Float(param)
            ==> param.shaped())
}

/// Whether `outs` are `events` with the targeted matrices adapted as `config`
/// says, on `device`.
pub open spec fn injected<C>(
    config: LoraConfig,
    device: Device,
    events: Seq<ModuleEvent<C>>,
    outs: Seq<ModuleEvent<C>>,
) -> bool {
    &&& outs.len() == events.len()
    &&& forall|i: int|
        0 <= i < events.len() ==> injected_at(
            config,
            device,
            path_after(events.take(i)),
            events[i],
            #[trigger] outs[i],
        )
}

/// Whether `out` is `event`, or, for a matrix, the matrix adapted, if `path` is
/// targeted.
pub open spec fn injected_at<C>(
    config: LoraConfig,
    device: Device,
    path: Seq<Seq<char>>,
    event: ModuleEvent<C>,
    out: ModuleEvent<C>,
) -> bool {
    match event {
        ModuleEvent::Float(param) => {
            &&& out matches ModuleEvent::Float(new)
            &&& if param.lazy_dims().len() == 2 && targeted(texts(config.target_modules@), path) {
                Param::newly_adapted(param, config.rank, config.alpha, device, new)
            } else {
                new == param
            }
        },
        _ => out == event,
    }
}

/// What an injector does over `events`, from the root of the module.
proof fn injector_run<'a, C: LoraTransform<Tensor<Float>, C>>(
    config: LoraConfig,
    device: Device,
    events: Seq<ModuleEvent<C>>,
    pre: LoraInjector<'a>,
    outs: Seq<ModuleEvent<C>>,
    post: LoraInjector<'a>,
)
    requires
        mapped(events, pre, outs, post),
        pre.path() == Seq::<Seq<char>>::empty(),
        pre.rank == config.rank,
        pre.alpha == config.alpha,
        *pre.target_modules == config.target_modules,
        pre.device == device,
    ensures
        injected(config, device, events, outs),
        post.path() == path_after(events),
        pre.same_config(post),
    decreases events.len(),
{
    if events.len() > 0 {
        let mid = choose|mid: LoraInjector<'a>|
            mapped(events.drop_last(), pre, outs.drop_last(), mid) && #[trigger] map_step(
                events.last(),
                mid,
                outs.last(),
                post,
            );
        injector_run(config, device, events.drop_last(), pre, outs.drop_last(), mid);
        assert forall|i: int| 0 <= i < events.len() implies injected_at(
            config,
            device,
            path_after(events.take(i)),
            events[i],
            #[trigger] outs[i],
        ) by {
            if i < events.len() - 1 {
                assert(events.drop_last().take(i) == events.take(i));
                assert(outs.drop_last()[i] == outs[i]);
            } else {
                assert(events.take(i) == events.drop_last());
            }
        }
    }
}

impl LoraConfig {
    /// Adapts the matrices of `module` whose path is targeted, with factors on
    /// `device`, in place of what adapted them. All else is left as it is.
    pub fn apply<C: LoraTransform<Tensor<Float>, C>, M: Module<C>>(
        &self,
        module: M,
        device: &Device,
    ) -> (out: M)
        requires
            all_shaped(module.events()),
        ensures
            injected(*self, *device, module.events(), out.events()),
    {
        let ghost events = module.events();
        let mut injector = LoraInjector::new(
            self.rank,
            self.alpha,
            &self.target_modules,
            device,
        );
        let ghost start = injector;
        assert(start.path() == Seq::<Seq<char>>::empty());
        assert(mappable(events, start));
        let out = module.map(&mut injector);
        proof {
            injector_run(*self, *device, events, start, out.events(), injector);
        }
        out
    }
}

/// Makes what adapts each parameter part of the parameter.
pub struct LoraMerger;

impl<C: LoraTransform<Tensor<Float>, C>> ModuleMapper<C> for LoraMerger {
    open spec fn entered(
        pre: Self,
        name: Seq<char>,
        container_type: Seq<char>,
        post: Self,
    ) -> bool {
        true
    }

    open spec fn exited(
        pre: Self,
        name: Seq<char>,
        container_type: Seq<char>,
        post: Self,
    ) -> bool {
        true
    }

    open spec fn accepts(param: Param<Tensor<Float>, C>) -> bool {
        param.adaptable()
    }

    open spec fn float_mapped(
        pre: Self,
        param: Param<Tensor<Float>, C>,
        post: Self,
        out: Param<Tensor<Float>, C>,
    ) -> bool {
        out == param.merged()
    }

    open spec fn int_mapped(
        pre: Self,
        param: Param<Tensor<Int>, C>,
        post: Self,
        out: Param<Tensor<Int>, C>,
    ) -> bool {
        out == param
    }

    open spec fn bool_mapped(
        pre: Self,
        param: Param<Tensor<Bool>, C>,
        post: Self,
        out: Param<Tensor<Bool>, C>,
    ) -> bool {
        out == param
    }

    open spec fn updates_lora(&self) -> bool {
        false
    }

    fn enter_module(&mut self, name: &str, container_type: &str) {
    }

    fn exit_module(&mut self, name: &str, container_type: &str) {
    }

    fn map_float(&mut self, param: Param<Tensor<Float>, C>) -> (out: Param<Tensor<Float>, C>) {
        param.merge_lora()
    }

    fn map_int(&mut self, param: Param<Tensor<Int>, C>) -> (out: Param<Tensor<Int>, C>) {
        param
    }

    fn map_bool(&mut self, param: Param<Tensor<Bool>, C>) -> (out: Param<Tensor<Bool>, C>) {
        param
    }

    fn updates_lora_params(&self) -> (out: bool) {
        false
    }
}

/// Whether the values of all the parameters among `events`, with all that adapts
/// them, can be formed.
pub open spec fn all_adaptable<C: LoraTransform<Tensor<Float>, C>>(
    events: Seq<ModuleEvent<C>>,
) -> bool {
    forall|i: int|
        0 <= i < events.len() ==> (#[trigger] events[i] matches ModuleEvent::Float(param)
            ==> param.adaptable())
}

/// `event` with the parameter merged, if it is one.
pub open spec fn merged_event<C: LoraTransform<Tensor<Float>, C>>(
    event: ModuleEvent<C>,
) -> ModuleEvent<C> {
    match event {
        ModuleEvent::Float(param) => ModuleEvent::Float(param.merged()),
        _ => event,
    }
}

/// `events` with all parameters merged.
pub open spec fn merged_events<C: LoraTransform<Tensor<Float>, C>>(
    events: Seq<ModuleEvent<C>>,
) -> Seq<ModuleEvent<C>> {
    Seq::new(events.len(), |i: int| merged_event(events[i]))
}

/// What a merger does over `events`.
proof fn merger_run<C: LoraTransform<Tensor<Float>, C>>(
    events: Seq<ModuleEvent<C>>,
    pre: LoraMerger,
    outs: Seq<ModuleEvent<C>>,
    post: LoraMerger,
)
    requires
        mapped(events, pre, outs, post),
    ensures
        outs == merged_events(events),
    decreases events.len(),
{
    if events.len() > 0 {
        let mid = choose|mid: LoraMerger|
            mapped(events.drop_last(), pre, outs.drop_last(), mid) && #[trigger] map_step(
                events.last(),
                mid,
                outs.last(),
                post,
            );
        merger_run(events.drop_last(), pre, outs.drop_last(), mid);
        assert(outs == outs.drop_last().push(outs.last()));
        assert(merged_events(events) == merged_events(events.drop_last()).push(
            merged_event(events.last()),
        ));
    }
}

/// Makes what adapts the parameters of `module` part of the parameters, so that
/// the module can be used without the cost of adaptations.
pub fn merge_lora<C: LoraTransform<Tensor<Float>, C>, M: Module<C>>(module: M) -> (out: M)
    requires
        all_adaptable(module.events()),
    ensures
        out.events() == merged_events(module.events()),
        forall|i: int|
            0 <= i < out.events().len() ==> (#[trigger] out.events()[i] matches
                ModuleEvent::Float(param) ==> param.lora_transform is None),
{
    let ghost events = module.events();
    let mut merger = LoraMerger;
    let ghost start = merger;
    assert(mappable(events, start));
    let out = module.map(&mut merger);
    proof {
        merger_run(events, start, out.events(), merger);
    }
    out
}

/// Gives up the gradients of the parameters that it meets, but for the factors
/// of adaptations.
pub struct LoraFreezer {
    /// How many adaptations have begun and not ended.
    pub lora_depth: usize,
}

impl LoraFreezer {
    /// A freezer at the root of a module.
    pub fn new() -> (out: Self)
        ensures
            out.lora_depth == 0,
    {
        LoraFreezer { lora_depth: 0 }
    }
}

/// Whether a part holds the factors of an adaptation: it is named `lora` and
/// belongs to an adaptation. A part of any other module may be named `lora` too.
pub open spec fn lora_scope(name: Seq<char>, container_type: Seq<char>) -> bool {
    name == "lora"@ && container_type == "Struct:LoraState"@
}

fn is_lora_scope(name: &str, container_type: &str) -> (out: bool)
    ensures
        out == lora_scope(name@, container_type@),
{
    name.to_owned() == "lora".to_owned() && container_type.to_owned()
        == "Struct:LoraState".to_owned()
}

/// The depth inside adaptations after one begins. It is kept in a machine word,
/// and stays at the largest.
pub open spec fn deeper(depth: int) -> int {
    if depth < usize::MAX {
        depth + 1
    } else {
        depth
    }
}

/// The depth inside adaptations after one ends.
pub open spec fn shallower(depth: int) -> int {
    if depth > 0 {
        depth - 1
    } else {
        depth
    }
}

/// How many adaptations have begun and not ended after `events`.
pub open spec fn depth_after<C>(events: Seq<ModuleEvent<C>>) -> int
    decreases events.len(),
{
    if events.len() == 0 {
        0
    } else {
        let depth = depth_after(events.drop_last());
        match events.last() {
            ModuleEvent::Enter { name, container_type } => if lora_scope(name, container_type) {
                deeper(depth)
            } else {
                depth
            },
            ModuleEvent::Exit { name, container_type } => if lora_scope(name, container_type) {
                shallower(depth)
            } else {
                depth
            },
            _ => depth,
        }
    }
}

impl<C> ModuleMapper<C> for LoraFreezer {
    open spec fn entered(
        pre: Self,
        name: Seq<char>,
        container_type: Seq<char>,
        post: Self,
    ) -> bool {
        post.lora_depth == if lora_scope(name, container_type) {
            deeper(pre.lora_depth as int)
        } else {
            pre.lora_depth as int
        }
    }

    open spec fn exited(
        pre: Self,
        name: Seq<char>,
        container_type: Seq<char>,
        post: Self,
    ) -> bool {
        post.lora_depth == if lora_scope(name, container_type) {
            shallower(pre.lora_depth as int)
        } else {
            pre.lora_depth as int
        }
    }

    open spec fn accepts(param: Param<Tensor<Float>, C>) -> bool {
        param.shaped()
    }

    open spec fn float_mapped(
        pre: Self,
        param: Param<Tensor<Float>, C>,
        post: Self,
        out: Param<Tensor<Float>, C>,
    ) -> bool {
        &&& post == pre
        &&& out == if pre.lora_depth > 0 {
            param
        } else {
            param.with_require_grad(false)
        }
    }

    open spec fn int_mapped(
        pre: Self,
        param: Param<Tensor<Int>, C>,
        post: Self,
        out: Param<Tensor<Int>, C>,
    ) -> bool {
        post == pre && out == param
    }

    open spec fn bool_mapped(
        pre: Self,
        param: Param<Tensor<Bool>, C>,
        post: Self,
        out: Param<Tensor<Bool>, C>,
    ) -> bool {
        post == pre && out == param
    }

    open spec fn updates_lora(&self) -> bool {
        false
    }

    fn enter_module(&mut self, name: &str, container_type: &str) {
        if is_lora_scope(name, container_type) {
            self.lora_depth = self.lora_depth.saturating_add(1);
        }
    }

    fn exit_module(&mut self, name: &str, container_type: &str) {
        if is_lora_scope(name, container_type) {
            self.lora_depth = self.lora_depth.saturating_sub(1);
        }
    }

    fn map_float(&mut self, param: Param<Tensor<Float>, C>) -> (out: Param<Tensor<Float>, C>) {
        if self.lora_depth > 0 {
            param
        } else {
            param.set_require_grad(false)
        }
    }

    fn map_int(&mut self, param: Param<Tensor<Int>, C>) -> (out: Param<Tensor<Int>, C>) {
        param
    }

    fn map_bool(&mut self, param: Param<Tensor<Bool>, C>) -> (out: Param<Tensor<Bool>, C>) {
        param
    }

    fn updates_lora_params(&self) -> (out: bool) {
        false
    }
}

/// `event` with the gradient of the parameter given up, if it is one outside
/// adaptations.
pub open spec fn frozen_event<C>(depth: int, event: ModuleEvent<C>) -> ModuleEvent<C> {
    match event {
        ModuleEvent::Float(param) => if depth > 0 {
            event
        } else {
            ModuleEvent::Float(param.with_require_grad(false))
        },
        _ => event,
    }
}

/// `events` with the gradients of the parameters outside adaptations given up.
pub open spec fn frozen_events<C>(events: Seq<ModuleEvent<C>>) -> Seq<ModuleEvent<C>> {
    Seq::new(
        events.len(),
        |i: int| frozen_event(depth_after(events.take(i)), events[i]),
    )
}

/// What a freezer does over `events`, from the root of the module.
proof fn freezer_run<C: LoraTransform<Tensor<Float>, C>>(
    events: Seq<ModuleEvent<C>>,
    pre: LoraFreezer,
    outs: Seq<ModuleEvent<C>>,
    post: LoraFreezer,
)
    requires
        mapped(events, pre, outs, post),
        pre.lora_depth == 0,
    ensures
        outs == frozen_events(events),
        post.lora_depth == depth_after(events),
    decreases events.len(),
{
    if events.len() > 0 {
        let mid = choose|mid: LoraFreezer|
            mapped(events.drop_last(), pre, outs.drop_last(), mid) && #[trigger] map_step(
                events.last(),
                mid,
                outs.last(),
                post,
            );
        freezer_run(events.drop_last(), pre, outs.drop_last(), mid);
        assert forall|i: int| 0 <= i < events.len() implies #[trigger] outs[i] == frozen_event(
            depth_after(events.take(i)),
            events[i],
        ) by {
            if i < events.len() - 1 {
                assert(events.drop_last().take(i) == events.take(i));
                assert(outs.drop_last()[i] == outs[i]);
            } else {
                assert(events.take(i) == events.drop_last());
            }
        }
    }
}

/// Gives up the gradients of all parameters of `module` but the factors of
/// adaptations, which keep theirs.
pub fn freeze_non_lora<C: LoraTransform<Tensor<Float>, C>, M: Module<C>>(module: M) -> (out: M)
    requires
        all_shaped(module.events()),
    ensures
        out.events() == frozen_events(module.events()),
{
    let ghost events = module.events();
    let mut freezer = LoraFreezer::new();
    let ghost start = freezer;
    assert(mappable(events, start));
    let out = module.map(&mut freezer);
    proof {
        freezer_run(events, start, out.events(), freezer);
    }
    out
}

} // verus!
