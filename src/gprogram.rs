use vstd::prelude::*;
use crate::blocks::{block_result, handlers_core};
use crate::error::{GenerationError, HandlerKind};
use crate::handlers::GeneratedHandlers;
use crate::signature::HandlerSignature;

verus! {

/// A declaration directly inside a program scope, as the scan sees it.
#[derive(Clone, Debug)]
pub enum ProgramItem {
    /// A macro invocation whose path is a single identifier `name`;
    /// `tokens` is the text of its body.
    Macro { name: String, tokens: String },
    /// Any other declaration.
    Other,
}

/// The blocks registered by the scan of one program scope: the content hash
/// of the command block and of the query block, and of whichever of them was
/// found first (the one that finishes the program's generation).
#[derive(Clone, Copy, Debug, PartialEq, Eq, Structural)]
pub struct DiscoveryRegistry {
    pub command_block: Option<u64>,
    pub query_block: Option<u64>,
    pub finalizing_block: Option<u64>,
}

/// The content hash of a block's text, as std's `DefaultHasher` computes it.
pub uninterp spec fn content_hash_of(s: Seq<char>) -> u64;

/// Relies on std's `BuildHasher::hash_one` over `BuildHasherDefault<DefaultHasher>`:
/// every `DefaultHasher` made by `default` is the same hasher (it is not
/// seeded per process), so the hash depends on the text alone.
#[verifier::external_body]
fn hash_of(tokens: &str) -> (r: u64)
    ensures
        r == content_hash_of(tokens@),
{
    std::hash::BuildHasher::hash_one(
        &std::hash::BuildHasherDefault::<std::collections::hash_map::DefaultHasher>::default(),
        tokens,
    )
}

/// The kind of block that `item` invokes, if any.
pub open spec fn item_kind(item: ProgramItem, command_macro: Seq<char>, query_macro: Seq<char>) -> Option<
    HandlerKind,
> {
    match item {
        ProgramItem::Macro { name, tokens } => if name@ == command_macro {
            Some(HandlerKind::Command)
        } else if name@ == query_macro {
            Some(HandlerKind::Query)
        } else {
            None
        },
        ProgramItem::Other => None,
    }
}

/// The content hash of the block that `item` invokes.
pub open spec fn block_hash(item: ProgramItem) -> u64 {
    match item {
        ProgramItem::Macro { name, tokens } => content_hash_of(tokens@),
        ProgramItem::Other => 0,
    }
}

/// Item `i` of `items` invokes a block of `kind`.
pub open spec fn is_block_at(
    items: Seq<ProgramItem>,
    i: int,
    kind: HandlerKind,
    command_macro: Seq<char>,
    query_macro: Seq<char>,
) -> bool {
    0 <= i < items.len() && item_kind(items[i], command_macro, query_macro) == Some(kind)
}

impl DiscoveryRegistry {
    pub open spec fn slot(&self, kind: HandlerKind) -> Option<u64> {
        match kind {
            HandlerKind::Command => self.command_block,
            HandlerKind::Query => self.query_block,
        }
    }

    /// The finalizing block is one of the registered blocks, and there is
    /// one as soon as any block is registered.
    pub open spec fn wf(&self) -> bool {
        &&& (self.finalizing_block is Some <==> (self.command_block is Some || self.query_block is Some))
        &&& (self.finalizing_block is Some ==> (self.finalizing_block == self.command_block
            || self.finalizing_block == self.query_block))
    }

    pub open spec fn empty() -> Self {
        DiscoveryRegistry { command_block: None, query_block: None, finalizing_block: None }
    }

    /// A block with content hash `hash` was registered.
    pub open spec fn holds(&self, hash: u64) -> bool {
        self.command_block == Some(hash) || self.query_block == Some(hash)
    }

    /// `r` is the registry after registering a block of `kind` with `hash`.
    pub open spec fn registered(&self, kind: HandlerKind, hash: u64, r: Self) -> bool {
        &&& r.slot(kind) == Some(hash)
        &&& r.slot(other_kind(kind)) == self.slot(other_kind(kind))
        &&& r.finalizing_block == if self.finalizing_block is Some {
            self.finalizing_block
        } else {
            Some(hash)
        }
    }

    /// A registry with no block in it.
    pub fn new() -> (r: Self)
        ensures
            r == Self::empty(),
            r.wf(),
    {
        DiscoveryRegistry { command_block: None, query_block: None, finalizing_block: None }
    }

    /// Registers a block of `kind` with content hash `hash`, if no block of
    /// that kind is registered yet; otherwise leaves the registry as it was.
    /// Returns whether the block was registered.
    pub fn register_block(&mut self, kind: HandlerKind, hash: u64) -> (r: bool)
        requires
            old(self).wf(),
        ensures
            final(self).wf(),
            r == old(self).slot(kind) is None,
            r ==> old(self).registered(kind, hash, *final(self)),
            !r ==> *final(self) == *old(self),
    {
        match kind {
            HandlerKind::Command => {
                if self.command_block.is_some() {
                    return false;
                }
                self.command_block = Some(hash);
            },
            HandlerKind::Query => {
                if self.query_block.is_some() {
                    return false;
                }
                self.query_block = Some(hash);
            },
        }
        if self.finalizing_block.is_none() {
            self.finalizing_block = Some(hash);
        }
        true
    }

    /// Whether a block with content hash `hash` was registered.
    pub fn is_block_registered(&self, hash: u64) -> (r: bool)
        ensures
            r == self.holds(hash),
    {
        self.command_block == Some(hash) || self.query_block == Some(hash)
    }

    /// Whether the block with content hash `hash` is the finalizing one.
    pub fn is_block_finalizing(&self, hash: u64) -> (r: bool)
        ensures
            r == (self.finalizing_block == Some(hash)),
    {
        self.finalizing_block == Some(hash)
    }
}

pub open spec fn other_kind(kind: HandlerKind) -> HandlerKind {
    match kind {
        HandlerKind::Command => HandlerKind::Query,
        HandlerKind::Query => HandlerKind::Command,
    }
}

/// Item `i` of `items` invokes a block of `kind` while a block of that kind
/// is registered already, by `reg` or by an earlier item.
pub open spec fn duplicate_at(
    reg: DiscoveryRegistry,
    items: Seq<ProgramItem>,
    i: int,
    kind: HandlerKind,
    command_macro: Seq<char>,
    query_macro: Seq<char>,
) -> bool {
    &&& is_block_at(items, i, kind, command_macro, query_macro)
    &&& (reg.slot(kind) is Some || exists|j: int|
        0 <= j < i && #[trigger] is_block_at(items, j, kind, command_macro, query_macro))
}

/// No item of `items` before `n` is a duplicate.
pub open spec fn no_duplicate_before(
    reg: DiscoveryRegistry,
    items: Seq<ProgramItem>,
    n: int,
    command_macro: Seq<char>,
    query_macro: Seq<char>,
) -> bool {
    forall|j: int, k: HandlerKind|
        0 <= j < n ==> !#[trigger] duplicate_at(reg, items, j, k, command_macro, query_macro)
}

/// `e` reports the first duplicate of `items`, by kind and position, and
/// `after` holds the blocks registered before it.
pub open spec fn is_first_duplicate_error(
    reg: DiscoveryRegistry,
    items: Seq<ProgramItem>,
    command_macro: Seq<char>,
    query_macro: Seq<char>,
    e: GenerationError,
    after: DiscoveryRegistry,
) -> bool {
    exists|i: int, k: HandlerKind|
        #[trigger] duplicate_at(reg, items, i, k, command_macro, query_macro) && no_duplicate_before(
            reg,
            items,
            i,
            command_macro,
            query_macro,
        ) && e == (GenerationError::DuplicateBlock { kind: k, index: i as usize }) && scanned(
            reg,
            items.take(i),
            command_macro,
            query_macro,
            after,
        )
}

/// The kind of the first block that `items` invokes.
pub open spec fn first_block_kind(items: Seq<ProgramItem>, command_macro: Seq<char>, query_macro: Seq<char>) -> Option<
    HandlerKind,
>
    decreases items.len(),
{
    if items.len() == 0 {
        None
    } else {
        match first_block_kind(items.drop_last(), command_macro, query_macro) {
            Some(k) => Some(k),
            None => item_kind(items.last(), command_macro, query_macro),
        }
    }
}

/// `r` is `reg` after registering every block of `items`, none a duplicate:
/// a kind has a block registered exactly when it had one or `items` invokes
/// one, a block of `items` is registered under its content hash, a kind that
/// `items` does not invoke keeps what it had, and the finalizing block is
/// the one that was first.
pub open spec fn scanned(
    reg: DiscoveryRegistry,
    items: Seq<ProgramItem>,
    command_macro: Seq<char>,
    query_macro: Seq<char>,
    r: DiscoveryRegistry,
) -> bool {
    &&& forall|k: HandlerKind|
        (#[trigger] r.slot(k) is Some) == (reg.slot(k) is Some || exists|j: int|
            #[trigger] is_block_at(items, j, k, command_macro, query_macro))
    &&& forall|j: int, k: HandlerKind|
        #[trigger] is_block_at(items, j, k, command_macro, query_macro) ==> r.slot(k) == Some(
            block_hash(items[j]),
        )
    &&& forall|k: HandlerKind|
        (forall|j: int| !#[trigger] is_block_at(items, j, k, command_macro, query_macro))
            ==> #[trigger] r.slot(k) == reg.slot(k)
    &&& r.finalizing_block == if reg.finalizing_block is Some {
        reg.finalizing_block
    } else {
        match first_block_kind(items, command_macro, query_macro) {
            Some(k) => r.slot(k),
            None => None,
        }
    }
}

/// What scanning `items` from `reg` gives: success, with `after` holding
/// every block, exactly when no block is a duplicate; otherwise the first
/// duplicate is reported and `after` holds the blocks before it.
pub open spec fn discover_result(
    reg: DiscoveryRegistry,
    items: Seq<ProgramItem>,
    command_macro: Seq<char>,
    query_macro: Seq<char>,
    r: Result<(), GenerationError>,
    after: DiscoveryRegistry,
) -> bool {
    match r {
        Ok(()) => no_duplicate_before(reg, items, items.len() as int, command_macro, query_macro) && scanned(
            reg,
            items,
            command_macro,
            query_macro,
            after,
        ),
        Err(e) => is_first_duplicate_error(reg, items, command_macro, query_macro, e, after),
    }
}

proof fn lemma_block_at_take(
    items: Seq<ProgramItem>,
    n: int,
    j: int,
    k: HandlerKind,
    command_macro: Seq<char>,
    query_macro: Seq<char>,
)
    requires
        0 <= n <= items.len(),
    ensures
        is_block_at(items.take(n), j, k, command_macro, query_macro) == (j < n && is_block_at(
            items,
            j,
            k,
            command_macro,
            query_macro,
        )),
{
}

proof fn lemma_first_block_kind_is_block(
    items: Seq<ProgramItem>,
    command_macro: Seq<char>,
    query_macro: Seq<char>,
)
    ensures
        match first_block_kind(items, command_macro, query_macro) {
            Some(k) => exists|j: int| #[trigger] is_block_at(items, j, k, command_macro, query_macro),
            None => forall|j: int, k: HandlerKind| !#[trigger] is_block_at(items, j, k, command_macro, query_macro),
        },
    decreases items.len(),
{
    if items.len() > 0 {
        let init = items.drop_last();
        lemma_first_block_kind_is_block(init, command_macro, query_macro);
        match first_block_kind(init, command_macro, query_macro) {
            Some(k) => {
                let j = choose|j: int| #[trigger] is_block_at(init, j, k, command_macro, query_macro);
                assert(is_block_at(items, j, k, command_macro, query_macro));
            },
            None => {
                match item_kind(items.last(), command_macro, query_macro) {
                    Some(k) => {
                        assert(is_block_at(items, items.len() - 1, k, command_macro, query_macro));
                    },
                    None => {
                        assert forall|j: int, k: HandlerKind| !#[trigger] is_block_at(
                            items,
                            j,
                            k,
                            command_macro,
                            query_macro,
                        ) by {
                            if 0 <= j < items.len() - 1 {
                                assert(!is_block_at(init, j, k, command_macro, query_macro));
                            }
                        }
                    },
                }
            },
        }
    }
}

impl DiscoveryRegistry {
    /// Registers the handler blocks that stand directly inside a program
    /// scope, in order. A block is a macro invocation named
    /// `command_macro_name` or `query_macro_name`; its content hash is
    /// recorded under its kind. Fails at the first block whose kind is
    /// registered already.
    pub fn discover_handlers_blocks(
        &mut self,
        items: &Vec<ProgramItem>,
        command_macro_name: &str,
        query_macro_name: &str,
    ) -> (r: Result<(), GenerationError>)
        requires
            old(self).wf(),
        ensures
            final(self).wf(),
            discover_result(*old(self), items@, command_macro_name@, query_macro_name@, r, *final(self)),
    {
        let ghost reg0 = *self;
        let ghost cm = command_macro_name@;
        let ghost qm = query_macro_name@;
        let command_macro = String::from_str(command_macro_name);
        let query_macro = String::from_str(query_macro_name);
        let mut i: usize = 0;
        while i < items.len()
            invariant
                i <= items.len(),
                reg0 == *old(self),
                cm == command_macro_name@,
                qm == query_macro_name@,
                self.wf(),
                command_macro@ == cm,
                query_macro@ == qm,
                no_duplicate_before(reg0, items@, i as int, cm, qm),
                scanned(reg0, items@.take(i as int), cm, qm, *self),
            decreases items.len() - i,
        {
            let ghost before = *self;
            let kind = match &items[i] {
                ProgramItem::Macro { name, tokens } => {
                    if *name == command_macro {
                        Some(HandlerKind::Command)
                    } else if *name == query_macro {
                        Some(HandlerKind::Query)
                    } else {
                        None
                    }
                },
                ProgramItem::Other => None,
            };
            assert(kind == item_kind(items@[i as int], cm, qm));
            let ghost prefix = items@.take(i as int);
            let ghost next = items@.take(i + 1);
            assert(next.drop_last() =~= prefix);
            assert(next.last() == items@[i as int]);
            assert forall|j: int, k: HandlerKind| #![auto]
                is_block_at(prefix, j, k, cm, qm) == (j < i && is_block_at(items@, j, k, cm, qm)) by {
                lemma_block_at_take(items@, i as int, j, k, cm, qm);
            }
            assert forall|j: int, k: HandlerKind| #![auto]
                is_block_at(next, j, k, cm, qm) == (j < i + 1 && is_block_at(items@, j, k, cm, qm)) by {
                lemma_block_at_take(items@, i + 1, j, k, cm, qm);
            }
            if let Some(k) = kind {
                let hash = match &items[i] {
                    ProgramItem::Macro { tokens, .. } => hash_of(tokens.as_str()),
                    ProgramItem::Other => 0,
                };
                assert(hash == block_hash(items@[i as int]));
                if !self.register_block(k, hash) {
                    let e = GenerationError::DuplicateBlock { kind: k, index: i };
                    proof {
                        assert(is_block_at(items@, i as int, k, cm, qm));
                        if reg0.slot(k) is None {
                            let j = choose|j: int| #[trigger] is_block_at(prefix, j, k, cm, qm);
                            assert(is_block_at(items@, j, k, cm, qm) && j < i);
                        }
                        assert(duplicate_at(reg0, items@, i as int, k, cm, qm));
                        assert(is_first_duplicate_error(reg0, items@, cm, qm, e, *self));
                    }
                    return Err(e);
                }
            }
            proof {
                lemma_first_block_kind_is_block(prefix, cm, qm);
                assert forall|j: int, k: HandlerKind| 0 <= j < i + 1 implies !#[trigger] duplicate_at(
                    reg0,
                    items@,
                    j,
                    k,
                    cm,
                    qm,
                ) by {
                    if j == i && duplicate_at(reg0, items@, j, k, cm, qm) {
                        if reg0.slot(k) is None {
                            let j2 = choose|j2: int|
                                0 <= j2 < j && #[trigger] is_block_at(items@, j2, k, cm, qm);
                            assert(is_block_at(prefix, j2, k, cm, qm));
                        }
                    }
                }
                assert forall|k: HandlerKind|
                    (#[trigger] self.slot(k) is Some) == (reg0.slot(k) is Some || exists|j: int|
                        #[trigger] is_block_at(next, j, k, cm, qm)) by {
                    if kind == Some(k) {
                        assert(is_block_at(next, i as int, k, cm, qm));
                    } else {
                        assert(self.slot(k) == before.slot(k));
                        if exists|j: int| #[trigger] is_block_at(next, j, k, cm, qm) {
                            let j = choose|j: int| #[trigger] is_block_at(next, j, k, cm, qm);
                            assert(is_block_at(prefix, j, k, cm, qm));
                        }
                        if exists|j: int| #[trigger] is_block_at(prefix, j, k, cm, qm) {
                            let j = choose|j: int| #[trigger] is_block_at(prefix, j, k, cm, qm);
                            assert(is_block_at(next, j, k, cm, qm));
                        }
                    }
                }
                assert forall|j: int, k: HandlerKind| #[trigger] is_block_at(next, j, k, cm, qm) implies self.slot(k)
                    == Some(block_hash(next[j])) by {
                    assert(next[j] == items@[j]);
                    if j < i {
                        assert(is_block_at(prefix, j, k, cm, qm));
                        assert(prefix[j] == items@[j]);
                        if kind == Some(k) {
                            assert(duplicate_at(reg0, items@, i as int, k, cm, qm));
                        }
                    }
                }
                assert forall|k: HandlerKind|
                    (forall|j: int| !#[trigger] is_block_at(next, j, k, cm, qm)) implies #[trigger] self.slot(k)
                    == reg0.slot(k) by {
                    if kind == Some(k) {
                        assert(is_block_at(next, i as int, k, cm, qm));
                    } else {
                        assert forall|j: int| !#[trigger] is_block_at(prefix, j, k, cm, qm) by {
                            if is_block_at(prefix, j, k, cm, qm) {
                                assert(is_block_at(next, j, k, cm, qm));
                            }
                        }
                    }
                }
                if reg0.finalizing_block is None {
                    match first_block_kind(prefix, cm, qm) {
                        Some(k0) => {
                            if kind == Some(k0) {
                                let j = choose|j: int| #[trigger] is_block_at(prefix, j, k0, cm, qm);
                                assert(before.slot(k0) is Some);
                            }
                        },
                        None => {},
                    }
                }
            }
            i += 1;
        }
        assert(items@.take(i as int) =~= items@);
        Ok(())
    }
}

/// What a handler block of `kind` with content hash `hash` generates when
/// `reg` is the registry of the scan: the block's output if the scan
/// registered its hash, and `MustBeInsideProgram` otherwise.
pub open spec fn program_block_result(
    reg: DiscoveryRegistry,
    kind: HandlerKind,
    hash: u64,
    sigs: Seq<HandlerSignature>,
    r: Result<GeneratedHandlers, GenerationError>,
) -> bool {
    if reg.holds(hash) {
        block_result(kind, sigs, r)
    } else {
        r == Err::<GeneratedHandlers, GenerationError>(GenerationError::MustBeInsideProgram { kind })
    }
}

impl DiscoveryRegistry {
    /// Generates the handler block of `kind` whose content hash is `hash`,
    /// provided the scan registered it.
    pub fn handlers_block(&self, kind: HandlerKind, hash: u64, sigs: &Vec<HandlerSignature>) -> (r: Result<
        GeneratedHandlers,
        GenerationError,
    >)
        ensures
            program_block_result(*self, kind, hash, sigs@, r),
    {
        if !self.is_block_registered(hash) {
            return Err(GenerationError::MustBeInsideProgram { kind });
        }
        handlers_core(kind, sigs)
    }

    /// Whether the block with text `tokens` was registered by the scan.
    pub fn is_handlers_block_discovered(&self, tokens: &str) -> (r: bool)
        ensures
            r == self.holds(content_hash_of(tokens@)),
    {
        let hash = hash_of(tokens);
        self.is_block_registered(hash)
    }

    /// Whether the block with text `tokens` is the finalizing one.
    pub fn is_handlers_block_finalizing(&self, tokens: &str) -> (r: bool)
        ensures
            r == (self.finalizing_block == Some(content_hash_of(tokens@))),
    {
        let hash = hash_of(tokens);
        self.is_block_finalizing(hash)
    }
}

/// Generates the block of `kind` with text `tokens` inside a program whose
/// scan left `reg`: the block's output if the scan registered the block's
/// content hash, and `MustBeInsideProgram` otherwise.
pub fn gprogram_handlers_core(
    reg: &DiscoveryRegistry,
    kind: HandlerKind,
    tokens: &str,
    sigs: &Vec<HandlerSignature>,
) -> (r: Result<GeneratedHandlers, GenerationError>)
    ensures
        program_block_result(*reg, kind, content_hash_of(tokens@), sigs@, r),
{
    let hash = hash_of(tokens);
    reg.handlers_block(kind, hash, sigs)
}

/// The command block with text `tokens` of a program whose scan left `reg`.
pub fn gprogram_command_handlers_core(reg: &DiscoveryRegistry, tokens: &str, sigs: &Vec<HandlerSignature>) -> (r: Result<
    GeneratedHandlers,
    GenerationError,
>)
    ensures
        program_block_result(*reg, HandlerKind::Command, content_hash_of(tokens@), sigs@, r),
{
    gprogram_handlers_core(reg, HandlerKind::Command, tokens, sigs)
}

/// The query block with text `tokens` of a program whose scan left `reg`.
pub fn gprogram_query_handlers_core(reg: &DiscoveryRegistry, tokens: &str, sigs: &Vec<HandlerSignature>) -> (r: Result<
    GeneratedHandlers,
    GenerationError,
>)
    ensures
        program_block_result(*reg, HandlerKind::Query, content_hash_of(tokens@), sigs@, r),
{
    gprogram_handlers_core(reg, HandlerKind::Query, tokens, sigs)
}

/// A successful scan registers each block of the program under its own
/// content hash, so that block is recognised when it expands.
pub proof fn lemma_scanned_block_is_discovered(
    reg: DiscoveryRegistry,
    items: Seq<ProgramItem>,
    command_macro: Seq<char>,
    query_macro: Seq<char>,
    after: DiscoveryRegistry,
    j: int,
    kind: HandlerKind,
)
    requires
        discover_result(reg, items, command_macro, query_macro, Ok(()), after),
        is_block_at(items, j, kind, command_macro, query_macro),
    ensures
        after.slot(kind) == Some(block_hash(items[j])),
        after.holds(block_hash(items[j])),
{
}

/// Two command blocks directly inside one program, at `i` and then at `j`
/// with no command block between: the scan fails with `DuplicateBlock` for
/// the block at `j`, and the block at `i` stays registered (as long as the
/// query block, if any, is single; else a query duplicate may come first).
pub proof fn lemma_two_command_blocks_duplicate(
    items: Seq<ProgramItem>,
    command_macro: Seq<char>,
    query_macro: Seq<char>,
    i: int,
    j: int,
    r: Result<(), GenerationError>,
    after: DiscoveryRegistry,
)
    requires
        i < j,
        is_block_at(items, i, HandlerKind::Command, command_macro, query_macro),
        is_block_at(items, j, HandlerKind::Command, command_macro, query_macro),
        forall|a: int|
            a < j && #[trigger] is_block_at(items, a, HandlerKind::Command, command_macro, query_macro) ==> a
                == i,
        forall|a: int, b: int|
            is_block_at(items, a, HandlerKind::Query, command_macro, query_macro) && is_block_at(
                items,
                b,
                HandlerKind::Query,
                command_macro,
                query_macro,
            ) ==> a == b,
        discover_result(DiscoveryRegistry::empty(), items, command_macro, query_macro, r, after),
    ensures
        r == Err::<(), GenerationError>(
            GenerationError::DuplicateBlock { kind: HandlerKind::Command, index: j as usize },
        ),
        after.command_block == Some(block_hash(items[i])),
{
    let reg = DiscoveryRegistry::empty();
    assert(duplicate_at(reg, items, j, HandlerKind::Command, command_macro, query_macro));
    let e = r->Err_0;
    let (a, k) = choose|a: int, k: HandlerKind|
        #[trigger] duplicate_at(reg, items, a, k, command_macro, query_macro) && no_duplicate_before(
            reg,
            items,
            a,
            command_macro,
            query_macro,
        ) && e == (GenerationError::DuplicateBlock { kind: k, index: a as usize }) && scanned(
            reg,
            items.take(a),
            command_macro,
            query_macro,
            after,
        );
    let b = choose|b: int| 0 <= b < a && #[trigger] is_block_at(items, b, k, command_macro, query_macro);
    if k == HandlerKind::Query {
        assert(false);
    }
    assert(a <= j);
    if a < j {
        assert(a == i);
        assert(b == i);
        assert(false);
    }
    assert(is_block_at(items.take(a), i, HandlerKind::Command, command_macro, query_macro));
    assert(items.take(a)[i] == items[i]);
}

/// A block whose content hash differs from that of every block at the
/// program's top level (it stands nested deeper, or outside the program)
/// fails with `MustBeInsideProgram` after a successful scan.
pub proof fn lemma_unscanned_block_must_be_inside_program(
    items: Seq<ProgramItem>,
    command_macro: Seq<char>,
    query_macro: Seq<char>,
    after: DiscoveryRegistry,
    kind: HandlerKind,
    tokens: Seq<char>,
    sigs: Seq<HandlerSignature>,
    out: Result<GeneratedHandlers, GenerationError>,
)
    requires
        discover_result(DiscoveryRegistry::empty(), items, command_macro, query_macro, Ok(()), after),
        forall|a: int, k: HandlerKind|
            #[trigger] is_block_at(items, a, k, command_macro, query_macro) ==> block_hash(items[a])
                != content_hash_of(tokens),
        program_block_result(after, kind, content_hash_of(tokens), sigs, out),
    ensures
        out == Err::<GeneratedHandlers, GenerationError>(GenerationError::MustBeInsideProgram { kind }),
{
    let h = content_hash_of(tokens);
    assert forall|k: HandlerKind| #[trigger] after.slot(k) != Some(h) by {
        if after.slot(k) is Some {
            let a = choose|a: int| #[trigger] is_block_at(items, a, k, command_macro, query_macro);
        }
    }
    assert(after.slot(HandlerKind::Command) != Some(h));
    assert(after.slot(HandlerKind::Query) != Some(h));
}

/// One command block and one query block directly inside a program: the
/// scan succeeds, and each block, recognised by its own content hash,
/// generates exactly what it generates on its own, the other block
/// notwithstanding.
pub proof fn lemma_command_and_query_blocks_side_by_side(
    items: Seq<ProgramItem>,
    command_macro: Seq<char>,
    query_macro: Seq<char>,
    r: Result<(), GenerationError>,
    after: DiscoveryRegistry,
    ic: int,
    iq: int,
    command_sigs: Seq<HandlerSignature>,
    command_out: Result<GeneratedHandlers, GenerationError>,
    query_sigs: Seq<HandlerSignature>,
    query_out: Result<GeneratedHandlers, GenerationError>,
)
    requires
        forall|a: int, b: int, k: HandlerKind|
            #[trigger] is_block_at(items, a, k, command_macro, query_macro) && #[trigger] is_block_at(
                items,
                b,
                k,
                command_macro,
                query_macro,
            ) ==> a == b,
        is_block_at(items, ic, HandlerKind::Command, command_macro, query_macro),
        is_block_at(items, iq, HandlerKind::Query, command_macro, query_macro),
        discover_result(DiscoveryRegistry::empty(), items, command_macro, query_macro, r, after),
        program_block_result(after, HandlerKind::Command, block_hash(items[ic]), command_sigs, command_out),
        program_block_result(after, HandlerKind::Query, block_hash(items[iq]), query_sigs, query_out),
    ensures
        r is Ok,
        after.command_block == Some(block_hash(items[ic])),
        after.query_block == Some(block_hash(items[iq])),
        block_result(HandlerKind::Command, command_sigs, command_out),
        block_result(HandlerKind::Query, query_sigs, query_out),
{
    let reg = DiscoveryRegistry::empty();
    if r is Err {
        let e = r->Err_0;
        let (a, k) = choose|a: int, k: HandlerKind|
            #[trigger] duplicate_at(reg, items, a, k, command_macro, query_macro) && no_duplicate_before(
                reg,
                items,
                a,
                command_macro,
                query_macro,
            ) && e == (GenerationError::DuplicateBlock { kind: k, index: a as usize }) && scanned(
                reg,
                items.take(a),
                command_macro,
                query_macro,
                after,
            );
        let b = choose|b: int| 0 <= b < a && #[trigger] is_block_at(items, b, k, command_macro, query_macro);
        assert(false);
    }
    assert(after.slot(HandlerKind::Command) == Some(block_hash(items[ic])));
    assert(after.slot(HandlerKind::Query) == Some(block_hash(items[iq])));
}

} // verus!
