//! Overloads of one name must stand next to each other inside their
//! container.

use vstd::prelude::*;
use vstd::std_specs::cmp::PartialEqSpecImpl;
use vstd::string::StringExecFns;
use crate::context::Context;
use crate::context::DiagnosticView;
use crate::context::Span;
use crate::syntax::Class;
use crate::syntax::ClassMember;
use crate::syntax::Decl;
use crate::syntax::ExportDecl;
use crate::syntax::Module;
use crate::syntax::ModuleDecl;
use crate::syntax::ModuleItem;
use crate::syntax::Script;
use crate::syntax::Stmt;
use crate::syntax::TsInterfaceBody;
use crate::syntax::TsModuleBlock;
use crate::syntax::TsTypeElement;
use crate::syntax::TsTypeLit;
use crate::syntax::opt_str_view;

verus! {

/// The overload group that a declaration belongs to.
#[derive(Debug, Hash)]
pub enum Method {
    /// A named function or method; a constructor goes by `constructor`.
    Method(String),
    /// A class member marked `static`.
    Static(String),
    /// A bare call signature `(...)`.
    CallSignature,
    /// A signature `new (...)`.
    ConstructSignature,
}

/// The mathematical value of a [`Method`].
pub ghost enum Identity {
    Method(Seq<char>),
    Static(Seq<char>),
    CallSignature,
    ConstructSignature,
}

impl Identity {
    /// The name under which a group is reported.
    pub open spec fn name(self) -> Seq<char> {
        match self {
            Identity::Method(s) => s,
            Identity::Static(s) => s,
            Identity::CallSignature => "call"@,
            Identity::ConstructSignature => "new"@,
        }
    }
}

impl View for Method {
    type V = Identity;

    open spec fn view(&self) -> Identity {
        match self {
            Method::Method(s) => Identity::Method(s@),
            Method::Static(s) => Identity::Static(s@),
            Method::CallSignature => Identity::CallSignature,
            Method::ConstructSignature => Identity::ConstructSignature,
        }
    }
}

impl Clone for Method {
    fn clone(&self) -> (r: Self)
        ensures
            r@ == self@,
    {
        match self {
            Method::Method(s) => Method::Method(s.clone()),
            Method::Static(s) => Method::Static(s.clone()),
            Method::CallSignature => Method::CallSignature,
            Method::ConstructSignature => Method::ConstructSignature,
        }
    }
}

impl PartialEq for Method {
    fn eq(&self, other: &Method) -> (r: bool) {
        match (self, other) {
            (Method::Method(a), Method::Method(b)) => String::eq(a, b),
            (Method::Static(a), Method::Static(b)) => String::eq(a, b),
            (Method::CallSignature, Method::CallSignature) => true,
            (Method::ConstructSignature, Method::ConstructSignature) => true,
            _ => false,
        }
    }
}

impl Eq for Method {

}

impl PartialEqSpecImpl for Method {
    open spec fn obeys_eq_spec() -> bool {
        true
    }

    open spec fn eq_spec(&self, other: &Method) -> bool {
        self@ == other@
    }
}

impl Method {
    pub fn get_name(&self) -> (r: &str)
        ensures
            r@ == self@.name(),
    {
        match self {
            Method::Method(s) => s.as_str(),
            Method::Static(s) => s.as_str(),
            Method::CallSignature => "call",
            Method::ConstructSignature => "new",
        }
    }
}

/// The view of an optional [`Method`].
pub open spec fn opt_method_view(o: Option<Method>) -> Option<Identity> {
    match o {
        Some(m) => Some(m@),
        None => None,
    }
}

/// A named group, if there is a name.
pub open spec fn plain(name: Option<Seq<char>>) -> Option<Identity> {
    match name {
        Some(s) => Some(Identity::Method(s)),
        None => None,
    }
}

/// A member of a container: it may belong to an overload group, and it has a
/// place in the source.
pub trait ExtractMethod {
    /// The group that this member belongs to; `None` for a member that
    /// declares nothing that can be overloaded.
    spec fn identity(&self) -> Option<Identity>;

    /// Where this member stands.
    spec fn span_spec(&self) -> Span;

    fn get_method(&self) -> (r: Option<Method>)
        ensures
            opt_method_view(r) == self.identity(),
    ;

    fn span(&self) -> (r: Span)
        ensures
            r == self.span_spec(),
    ;
}

/// The name of a function declaration; no other declaration has one here.
pub open spec fn decl_ident(decl: &Decl) -> Option<Seq<char>> {
    match decl {
        Decl::Fn(f) => Some(f.ident@),
        Decl::Other(_) => None,
    }
}

pub open spec fn decl_span(decl: &Decl) -> Span {
    match decl {
        Decl::Fn(f) => f.span,
        Decl::Other(s) => *s,
    }
}

pub fn extract_ident_from_decl(decl: &Decl) -> (r: Option<String>)
    ensures
        opt_str_view(r) == decl_ident(decl),
{
    match decl {
        Decl::Fn(f) => Some(f.ident.clone()),
        Decl::Other(_) => None,
    }
}

fn span_of_decl(decl: &Decl) -> (r: Span)
    ensures
        r == decl_span(decl),
{
    match decl {
        Decl::Fn(f) => f.span,
        Decl::Other(s) => *s,
    }
}

fn named(name: Option<String>) -> (r: Option<Method>)
    ensures
        opt_method_view(r) == plain(opt_str_view(name)),
{
    match name {
        Some(s) => Some(Method::Method(s)),
        None => None,
    }
}

impl ExtractMethod for ExportDecl {
    open spec fn identity(&self) -> Option<Identity> {
        plain(decl_ident(&self.decl))
    }

    open spec fn span_spec(&self) -> Span {
        self.span
    }

    fn get_method(&self) -> (r: Option<Method>) {
        let method_name = extract_ident_from_decl(&self.decl);
        named(method_name)
    }

    fn span(&self) -> (r: Span) {
        self.span
    }
}

impl ExtractMethod for Stmt {
    open spec fn identity(&self) -> Option<Identity> {
        match self {
            Stmt::Decl(decl) => plain(decl_ident(decl)),
            Stmt::Other(_) => None,
        }
    }

    open spec fn span_spec(&self) -> Span {
        match self {
            Stmt::Decl(decl) => decl_span(decl),
            Stmt::Other(s) => *s,
        }
    }

    fn get_method(&self) -> (r: Option<Method>) {
        let method_name = match self {
            Stmt::Decl(decl) => extract_ident_from_decl(decl),
            Stmt::Other(_) => None,
        };
        named(method_name)
    }

    fn span(&self) -> (r: Span) {
        match self {
            Stmt::Decl(decl) => span_of_decl(decl),
            Stmt::Other(s) => *s,
        }
    }
}

impl ExtractMethod for ModuleItem {
    open spec fn identity(&self) -> Option<Identity> {
        match self {
            ModuleItem::ModuleDecl(ModuleDecl::ExportDecl(export_decl)) => export_decl.identity(),
            ModuleItem::ModuleDecl(ModuleDecl::Other(_)) => None,
            ModuleItem::Stmt(stmt) => stmt.identity(),
        }
    }

    open spec fn span_spec(&self) -> Span {
        match self {
            ModuleItem::ModuleDecl(ModuleDecl::ExportDecl(export_decl)) => export_decl.span,
            ModuleItem::ModuleDecl(ModuleDecl::Other(s)) => *s,
            ModuleItem::Stmt(stmt) => stmt.span_spec(),
        }
    }

    fn get_method(&self) -> (r: Option<Method>) {
        match self {
            ModuleItem::ModuleDecl(ModuleDecl::ExportDecl(export_decl)) => export_decl.get_method(),
            ModuleItem::ModuleDecl(ModuleDecl::Other(_)) => None,
            ModuleItem::Stmt(stmt) => stmt.get_method(),
        }
    }

    fn span(&self) -> (r: Span) {
        match self {
            ModuleItem::ModuleDecl(ModuleDecl::ExportDecl(export_decl)) => export_decl.span,
            ModuleItem::ModuleDecl(ModuleDecl::Other(s)) => *s,
            ModuleItem::Stmt(stmt) => stmt.span(),
        }
    }
}

impl ExtractMethod for ClassMember {
    open spec fn identity(&self) -> Option<Identity> {
        match self {
            ClassMember::Method(m) => match m.key.repr() {
                Some(k) => if m.is_static {
                    Some(Identity::Static(k))
                } else {
                    Some(Identity::Method(k))
                },
                None => None,
            },
            ClassMember::Constructor(_) => Some(Identity::Method("constructor"@)),
            ClassMember::Other(_) => None,
        }
    }

    open spec fn span_spec(&self) -> Span {
        match self {
            ClassMember::Method(m) => m.span,
            ClassMember::Constructor(s) => *s,
            ClassMember::Other(s) => *s,
        }
    }

    fn get_method(&self) -> (r: Option<Method>) {
        match self {
            ClassMember::Method(m) => match m.key.string_repr() {
                Some(k) => if m.is_static {
                    Some(Method::Static(k))
                } else {
                    Some(Method::Method(k))
                },
                None => None,
            },
            ClassMember::Constructor(_) => Some(Method::Method(String::from_str("constructor"))),
            ClassMember::Other(_) => None,
        }
    }

    fn span(&self) -> (r: Span) {
        match self {
            ClassMember::Method(m) => m.span,
            ClassMember::Constructor(s) => *s,
            ClassMember::Other(s) => *s,
        }
    }
}

impl ExtractMethod for TsTypeElement {
    open spec fn identity(&self) -> Option<Identity> {
        match self {
            TsTypeElement::TsMethodSignature(m) => plain(m.repr()),
            TsTypeElement::TsCallSignatureDecl(_) => Some(Identity::CallSignature),
            TsTypeElement::TsConstructSignatureDecl(_) => Some(Identity::ConstructSignature),
            TsTypeElement::Other(_) => None,
        }
    }

    open spec fn span_spec(&self) -> Span {
        match self {
            TsTypeElement::TsMethodSignature(m) => m.span,
            TsTypeElement::TsCallSignatureDecl(s) => *s,
            TsTypeElement::TsConstructSignatureDecl(s) => *s,
            TsTypeElement::Other(s) => *s,
        }
    }

    fn get_method(&self) -> (r: Option<Method>) {
        match self {
            TsTypeElement::TsMethodSignature(m) => named(m.string_repr()),
            TsTypeElement::TsCallSignatureDecl(_) => Some(Method::CallSignature),
            TsTypeElement::TsConstructSignatureDecl(_) => Some(Method::ConstructSignature),
            TsTypeElement::Other(_) => None,
        }
    }

    fn span(&self) -> (r: Span) {
        match self {
            TsTypeElement::TsMethodSignature(m) => m.span,
            TsTypeElement::TsCallSignatureDecl(s) => *s,
            TsTypeElement::TsConstructSignatureDecl(s) => *s,
            TsTypeElement::Other(s) => *s,
        }
    }
}

} // verus!

verus! {

pub struct AdjacentOverloadSignatures;

impl AdjacentOverloadSignatures {
    pub fn new() -> (r: Box<Self>) {
        Box::new(AdjacentOverloadSignatures)
    }

    pub fn tags(&self) -> (r: &'static [&'static str])
        ensures
            r@ == seq!["recommended"],
    {
        &["recommended"]
    }

    pub fn code(&self) -> (r: &'static str)
        ensures
            r@ == "adjacent-overload-signatures"@,
    {
        "adjacent-overload-signatures"
    }
}

/// The groups of the members of a container, in order.
pub open spec fn identities<U: ExtractMethod>(items: Seq<U>) -> Seq<Option<Identity>> {
    items.map_values(|u: U| u.identity())
}

/// The places of the members of a container, in order.
pub open spec fn spans<U: ExtractMethod>(items: Seq<U>) -> Seq<Span> {
    items.map_values(|u: U| u.span_spec())
}

/// The group of member `i` has occurred before member `i`.
pub open spec fn seen_before(ids: Seq<Option<Identity>>, i: int) -> bool {
    exists|j: int| 0 <= j < i && #[trigger] ids[j] == ids[i]
}

/// Member `i` is out of place: it belongs to a group that has occurred
/// before, and the member just before it does not belong to that group.
pub open spec fn breaks_adjacency(ids: Seq<Option<Identity>>, i: int) -> bool {
    &&& 0 < i < ids.len()
    &&& ids[i] is Some
    &&& seen_before(ids, i)
    &&& ids[i - 1] != ids[i]
}

/// The message that names a group.
pub open spec fn message_text(name: Seq<char>) -> Seq<char> {
    "All '"@ + name + "' signatures should be adjacent"@
}

/// The diagnostic for a member of group `id` that stands at `span`.
pub open spec fn report(span: Span, id: Identity) -> DiagnosticView {
    DiagnosticView {
        span,
        code: "adjacent-overload-signatures"@,
        message: message_text(id.name()),
        hint: Some("Make sure all overloaded signatures are grouped together"@),
    }
}

/// The diagnostics for the first `n` members: one for each member that is
/// out of place, in the members' order.
pub open spec fn scan_reports(ids: Seq<Option<Identity>>, places: Seq<Span>, n: nat) -> Seq<
    DiagnosticView,
>
    decreases n,
{
    if n == 0 {
        Seq::empty()
    } else {
        let before = scan_reports(ids, places, (n - 1) as nat);
        if breaks_adjacency(ids, n - 1) {
            before.push(report(places[n - 1], ids[n - 1].unwrap()))
        } else {
            before
        }
    }
}

/// All diagnostics for a container.
pub open spec fn container_reports<U: ExtractMethod>(items: Seq<U>) -> Seq<DiagnosticView> {
    scan_reports(identities(items), spans(items), items.len())
}

/// Group `id` occurs among the first `n` members.
pub open spec fn occurs(ids: Seq<Option<Identity>>, n: int, id: Identity) -> bool {
    exists|j: int| 0 <= j < n && #[trigger] ids[j] == Some(id)
}

/// The groups that occur among the first `n` members.
pub open spec fn seen_groups(ids: Seq<Option<Identity>>, n: int) -> Set<Identity> {
    Set::new(|id: Identity| occurs(ids, n, id))
}

spec fn holds(seen: Seq<Method>, id: Identity) -> bool {
    exists|k: int| 0 <= k < seen.len() && (#[trigger] seen[k])@ == id
}

/// A set of groups, kept as a list in which no group stands twice.
pub struct MethodSet {
    methods: Vec<Method>,
}

impl View for MethodSet {
    type V = Set<Identity>;

    closed spec fn view(&self) -> Set<Identity> {
        Set::new(|id: Identity| holds(self.methods@, id))
    }
}

impl MethodSet {
    /// No group is held twice.
    pub closed spec fn wf(&self) -> bool {
        forall|k: int, l: int|
            0 <= k < l < self.methods@.len() ==> (#[trigger] self.methods@[k])@ != (
            #[trigger] self.methods@[l])@
    }

    pub fn new() -> (r: MethodSet)
        ensures
            r.wf(),
            r@ == Set::<Identity>::empty(),
    {
        let r = MethodSet { methods: Vec::new() };
        assert(r@ =~= Set::<Identity>::empty());
        r
    }

    pub fn contains(&self, method: &Method) -> (r: bool)
        ensures
            r == self@.contains(method@),
    {
        let mut k: usize = 0;
        while k < self.methods.len()
            invariant
                k <= self.methods@.len(),
                forall|j: int| 0 <= j < k ==> (#[trigger] self.methods@[j])@ != method@,
            decreases self.methods@.len() - k,
        {
            if self.methods[k] == *method {
                return true;
            }
            k += 1;
        }
        false
    }

    /// Adds a group; says whether it was new.
    pub fn insert(&mut self, method: Method) -> (r: bool)
        requires
            old(self).wf(),
        ensures
            final(self).wf(),
            final(self)@ == old(self)@.insert(method@),
            r == !old(self)@.contains(method@),
    {
        if self.contains(&method) {
            assert(self@ =~= old(self)@.insert(method@));
            false
        } else {
            self.methods.push(method);
            proof {
                let before = old(self).methods@;
                let after = self.methods@;
                assert forall|k: int, l: int| 0 <= k < l < after.len() implies (#[trigger] after[k])@
                    != (#[trigger] after[l])@ by {
                    if l == before.len() {
                        assert(before[k]@ != method@);
                    } else {
                        assert(before[k]@ != before[l]@);
                    }
                }
                assert forall|id: Identity| self@.contains(id) <==> old(self)@.insert(
                    method@,
                ).contains(id) by {
                    if holds(after, id) {
                        let k = choose|k: int| 0 <= k < after.len() && (#[trigger] after[k])@ == id;
                        if k < before.len() {
                            assert(before[k]@ == id);
                        }
                    }
                    if holds(before, id) {
                        let k = choose|k: int|
                            0 <= k < before.len() && (#[trigger] before[k])@ == id;
                        assert(after[k]@ == id);
                    }
                    if id == method@ {
                        assert(after[before.len() as int]@ == id);
                    }
                }
                assert(self@ =~= old(self)@.insert(method@));
            }
            true
        }
    }
}

proof fn lemma_seen_before(ids: Seq<Option<Identity>>, i: int, id: Identity)
    requires
        0 <= i < ids.len(),
        ids[i] == Some(id),
    ensures
        seen_before(ids, i) == seen_groups(ids, i).contains(id),
{
    if seen_before(ids, i) {
        let j = choose|j: int| 0 <= j < i && #[trigger] ids[j] == ids[i];
        assert(ids[j] == Some(id));
    }
    if occurs(ids, i, id) {
        let j = choose|j: int| 0 <= j < i && #[trigger] ids[j] == Some(id);
        assert(ids[j] == ids[i]);
    }
}

/// What one more member adds to the groups seen: its own group, if it has
/// one.
proof fn lemma_seen_groups_step(ids: Seq<Option<Identity>>, n: int)
    requires
        0 <= n < ids.len(),
    ensures
        seen_groups(ids, n + 1) == match ids[n] {
            Some(id) => seen_groups(ids, n).insert(id),
            None => seen_groups(ids, n),
        },
{
    let next = match ids[n] {
        Some(id) => seen_groups(ids, n).insert(id),
        None => seen_groups(ids, n),
    };
    assert forall|id: Identity| seen_groups(ids, n + 1).contains(id) <==> next.contains(id) by {
        if occurs(ids, n + 1, id) {
            let j = choose|j: int| 0 <= j < n + 1 && #[trigger] ids[j] == Some(id);
            if j < n {
                assert(occurs(ids, n, id));
            }
        }
        if occurs(ids, n, id) {
            let j = choose|j: int| 0 <= j < n && #[trigger] ids[j] == Some(id);
            assert(0 <= j < n + 1 && ids[j] == Some(id));
        }
        if ids[n] == Some(id) {
            assert(occurs(ids, n + 1, id));
        }
    }
    assert(seen_groups(ids, n + 1) =~= next);
}

fn message_for(fn_name: &str) -> (r: String)
    ensures
        r@ == message_text(fn_name@),
{
    let r = String::from_str("All '").concat(fn_name).concat("' signatures should be adjacent");
    assert(r@ =~= message_text(fn_name@));
    r
}

pub struct AdjacentOverloadSignaturesVisitor<'c> {
    pub context: &'c mut Context,
}

impl<'c> AdjacentOverloadSignaturesVisitor<'c> {
    pub fn new(context: &'c mut Context) -> (r: Self)
        ensures
            *r.context == *old(context),
            *final(r.context) == *final(context),
    {
        Self { context }
    }

    pub fn add_diagnostic(&mut self, span: Span, fn_name: &str)
        ensures
            final(self).context@ == old(self).context@.push(
                (DiagnosticView {
                    span,
                    code: "adjacent-overload-signatures"@,
                    message: message_text(fn_name@),
                    hint: Some("Make sure all overloaded signatures are grouped together"@),
                }),
            ),
            *final(final(self).context) == *final(old(self).context),
    {
        let message = message_for(fn_name);
        self.context.add_diagnostic_with_hint(
            span,
            "adjacent-overload-signatures",
            message.as_str(),
            "Make sure all overloaded signatures are grouped together",
        );
    }

    /// Scans one container: reports every member that is out of place, in
    /// the members' order, and nothing else.
    pub fn check<U: ExtractMethod>(&mut self, items: &Vec<U>)
        ensures
            final(self).context@ == old(self).context@ + container_reports(items@),
            *final(final(self).context) == *final(old(self).context),
    {
        let mut seen_methods = MethodSet::new();
        let mut last_method: Option<Method> = None;
        let ghost ids = identities(items@);
        let ghost places = spans(items@);
        let mut i: usize = 0;
        assert(seen_methods@ =~= seen_groups(ids, 0));
        while i < items.len()
            invariant
                i <= items@.len(),
                ids == identities(items@),
                places == spans(items@),
                self.context@ == old(self).context@ + scan_reports(ids, places, i as nat),
                *final(self.context) == *final(old(self).context),
                seen_methods.wf(),
                seen_methods@ == seen_groups(ids, i as int),
                i == 0 ==> last_method is None,
                i > 0 ==> opt_method_view(last_method) == ids[i - 1],
            decreases items@.len() - i,
        {
            let item = &items[i];
            proof {
                lemma_seen_groups_step(ids, i as int);
            }
            match item.get_method() {
                Some(method) => {
                    let seen = seen_methods.contains(&method);
                    let adjacent = match &last_method {
                        Some(last) => *last == method,
                        None => false,
                    };
                    proof {
                        lemma_seen_before(ids, i as int, method@);
                        assert((seen && !adjacent) == breaks_adjacency(ids, i as int));
                    }
                    if seen && !adjacent {
                        self.add_diagnostic(item.span(), method.get_name());
                    }
                    seen_methods.insert(method.clone());
                    last_method = Some(method);
                },
                None => {
                    last_method = None;
                },
            }
            proof {
                assert(self.context@ =~= old(self).context@ + scan_reports(
                    ids,
                    places,
                    (i + 1) as nat,
                ));
            }
            i += 1;
        }
    }

    pub fn visit_script(&mut self, script: &Script)
        ensures
            final(self).context@ == old(self).context@ + container_reports(script.body@),
            *final(final(self).context) == *final(old(self).context),
    {
        self.check(&script.body);
    }

    pub fn visit_module(&mut self, module: &Module)
        ensures
            final(self).context@ == old(self).context@ + container_reports(module.body@),
            *final(final(self).context) == *final(old(self).context),
    {
        self.check(&module.body);
    }

    pub fn visit_ts_module_block(&mut self, ts_module_block: &TsModuleBlock)
        ensures
            final(self).context@ == old(self).context@ + container_reports(ts_module_block.body@),
            *final(final(self).context) == *final(old(self).context),
    {
        self.check(&ts_module_block.body);
    }

    pub fn visit_class(&mut self, class: &Class)
        ensures
            final(self).context@ == old(self).context@ + container_reports(class.body@),
            *final(final(self).context) == *final(old(self).context),
    {
        self.check(&class.body);
    }

    pub fn visit_ts_type_lit(&mut self, ts_type_lit: &TsTypeLit)
        ensures
            final(self).context@ == old(self).context@ + container_reports(ts_type_lit.members@),
            *final(final(self).context) == *final(old(self).context),
    {
        self.check(&ts_type_lit.members);
    }

    pub fn visit_ts_interface_body(&mut self, ts_interface_body: &TsInterfaceBody)
        ensures
            final(self).context@ == old(self).context@ + container_reports(ts_interface_body.body@),
            *final(final(self).context) == *final(old(self).context),
    {
        self.check(&ts_interface_body.body);
    }
}

} // verus!

verus! {

/// The occurrences of group `id` stand in one run: between two of them there
/// is nothing else.
pub open spec fn contiguous(ids: Seq<Option<Identity>>, id: Identity) -> bool {
    forall|i: int, j: int, k: int|
        0 <= i < j < k < ids.len() && #[trigger] ids[i] == Some(id) && #[trigger] ids[k] == Some(id)
            ==> #[trigger] ids[j] == Some(id)
}

/// Every group's occurrences stand in one run.
pub open spec fn grouped(ids: Seq<Option<Identity>>) -> bool {
    forall|id: Identity| #[trigger] contiguous(ids, id)
}

/// The members among the first `n` that are out of place, in order.
pub open spec fn flagged(ids: Seq<Option<Identity>>, n: nat) -> Seq<int>
    decreases n,
{
    if n == 0 {
        Seq::empty()
    } else if breaks_adjacency(ids, n - 1) {
        flagged(ids, (n - 1) as nat).push(n - 1)
    } else {
        flagged(ids, (n - 1) as nat)
    }
}

/// The diagnostics of a scan are those of its flagged members, one for one:
/// diagnostic `k` names the group of the `k`-th flagged member and stands at
/// that member's place. Flagged members are listed once, in rising order, and
/// a member is listed exactly if it is out of place.
pub proof fn lemma_reports_follow_flagged(ids: Seq<Option<Identity>>, places: Seq<Span>, n: nat)
    requires
        n <= ids.len(),
    ensures
        scan_reports(ids, places, n).len() == flagged(ids, n).len(),
        forall|k: int|
            0 <= k < flagged(ids, n).len() ==> {
                let m = #[trigger] flagged(ids, n)[k];
                &&& 0 <= m < n
                &&& breaks_adjacency(ids, m)
                &&& scan_reports(ids, places, n)[k] == report(places[m], ids[m].unwrap())
            },
        forall|k: int, l: int|
            0 <= k < l < flagged(ids, n).len() ==> flagged(ids, n)[k] < flagged(ids, n)[l],
        forall|m: int| 0 <= m < n && breaks_adjacency(ids, m) ==> flagged(ids, n).contains(m),
    decreases n,
{
    if n > 0 {
        lemma_reports_follow_flagged(ids, places, (n - 1) as nat);
        let before = flagged(ids, (n - 1) as nat);
        assert forall|m: int| 0 <= m < n && breaks_adjacency(ids, m) implies flagged(
            ids,
            n,
        ).contains(m) by {
            if m < n - 1 {
                assert(before.contains(m));
                let k = choose|k: int| 0 <= k < before.len() && before[k] == m;
                assert(flagged(ids, n)[k] == m);
            } else {
                assert(flagged(ids, n)[before.len() as int] == m);
            }
        }
    }
}

/// A member of a group whose occurrences stand in one run is never out of
/// place, whatever the other members are: a run that something follows, with
/// no later occurrence of the group, draws no diagnostic.
pub proof fn lemma_contiguous_group_is_silent(ids: Seq<Option<Identity>>, id: Identity, m: int)
    requires
        contiguous(ids, id),
        0 <= m < ids.len(),
        ids[m] == Some(id),
    ensures
        !breaks_adjacency(ids, m),
{
    if breaks_adjacency(ids, m) {
        let j = choose|j: int| 0 <= j < m && #[trigger] ids[j] == ids[m];
        assert(ids[j] == Some(id));
        assert(j < m - 1);
        assert(ids[m - 1] == Some(id));
    }
}

/// Where every group's occurrences stand in one run, a scan reports nothing.
pub proof fn lemma_grouped_is_silent(ids: Seq<Option<Identity>>, places: Seq<Span>, n: nat)
    requires
        grouped(ids),
        n <= ids.len(),
    ensures
        scan_reports(ids, places, n) == Seq::<DiagnosticView>::empty(),
    decreases n,
{
    if n > 0 {
        lemma_grouped_is_silent(ids, places, (n - 1) as nat);
        if ids[n - 1] is Some {
            assert(contiguous(ids, ids[n - 1].unwrap()));
            lemma_contiguous_group_is_silent(ids, ids[n - 1].unwrap(), n - 1);
        }
    }
}

/// A container in which every group's occurrences stand in one run draws no
/// diagnostic.
pub proof fn lemma_grouped_container_is_silent<U: ExtractMethod>(items: Seq<U>)
    requires
        grouped(identities(items)),
    ensures
        container_reports(items) == Seq::<DiagnosticView>::empty(),
{
    assert(identities(items).len() == items.len());
    lemma_grouped_is_silent(identities(items), spans(items), items.len());
}

/// Where a scan of a whole container reports nothing, every group's
/// occurrences stand in one run.
pub proof fn lemma_silent_is_grouped(ids: Seq<Option<Identity>>, places: Seq<Span>)
    requires
        scan_reports(ids, places, ids.len()) == Seq::<DiagnosticView>::empty(),
    ensures
        grouped(ids),
{
    lemma_reports_follow_flagged(ids, places, ids.len());
    assert forall|id: Identity| #[trigger] contiguous(ids, id) by {
        assert forall|i: int, j: int, k: int|
            0 <= i < j < k < ids.len() && #[trigger] ids[i] == Some(id) && #[trigger] ids[k]
                == Some(id) implies #[trigger] ids[j] == Some(id) by {
            if ids[j] != Some(id) {
                lemma_run_resumes(ids, id, i, j, k);
                let m = choose|m: int| j < m <= k && breaks_adjacency(ids, m);
                assert(flagged(ids, ids.len()).contains(m));
            }
        }
    }
}

/// If group `id` occurs at `i` and at `k`, and a member between them at `j`
/// is not of that group, some member after `j`, up to `k`, is out of place.
proof fn lemma_run_resumes(ids: Seq<Option<Identity>>, id: Identity, i: int, j: int, k: int)
    requires
        0 <= i < j < k < ids.len(),
        ids[i] == Some(id),
        ids[k] == Some(id),
        ids[j] != Some(id),
    ensures
        exists|m: int| j < m <= k && breaks_adjacency(ids, m),
    decreases k - j,
{
    if ids[j + 1] == Some(id) {
        assert(ids[i] == ids[j + 1]);
        assert(seen_before(ids, j + 1));
        assert(breaks_adjacency(ids, j + 1));
    } else {
        lemma_run_resumes(ids, id, i, j + 1, k);
        let m = choose|m: int| j + 1 < m <= k && breaks_adjacency(ids, m);
        assert(j < m <= k && breaks_adjacency(ids, m));
    }
}

/// A member that directly follows a member of its own group is never out of
/// place, so one break draws one diagnostic, not one for each member of the
/// run that resumes.
pub proof fn lemma_adjacent_is_silent(ids: Seq<Option<Identity>>, m: int)
    requires
        0 < m < ids.len(),
        ids[m - 1] == ids[m],
    ensures
        !breaks_adjacency(ids, m),
{
}

/// Groups do not interact. Whether a member of group `id` is out of place
/// depends only on where the members of `id` stand: two containers that have
/// members of `id` at the same positions flag the same ones, whatever stands
/// elsewhere.
pub proof fn lemma_groups_are_independent(
    a: Seq<Option<Identity>>,
    b: Seq<Option<Identity>>,
    id: Identity,
    m: int,
)
    requires
        a.len() == b.len(),
        forall|j: int| 0 <= j < a.len() ==> (#[trigger] a[j] == Some(id)) == (b[j] == Some(id)),
        0 <= m < a.len(),
        a[m] == Some(id),
    ensures
        b[m] == Some(id),
        breaks_adjacency(a, m) == breaks_adjacency(b, m),
{
    lemma_seen_before(a, m, id);
    lemma_seen_before(b, m, id);
    if occurs(a, m, id) {
        let j = choose|j: int| 0 <= j < m && #[trigger] a[j] == Some(id);
        assert(b[j] == Some(id));
    }
    if occurs(b, m, id) {
        let j = choose|j: int| 0 <= j < m && #[trigger] b[j] == Some(id);
        assert(a[j] == Some(id));
    }
    if m > 0 {
        assert((a[m - 1] == Some(id)) == (b[m - 1] == Some(id)));
    }
}

/// A static member of a class and a member that is not static never belong
/// to one group, whatever their keys.
pub proof fn lemma_static_apart_from_instance(a: ClassMember, b: ClassMember)
    requires
        a matches ClassMember::Method(m) && m.is_static,
        !(b matches ClassMember::Method(m) && m.is_static),
        a.identity() is Some,
    ensures
        a.identity() != b.identity(),
{
}

/// Two containers, of whatever shapes, whose members belong to the same
/// groups in the same order draw the same diagnostics, but for the places:
/// as many, for the same members, with the same code, message and hint.
pub proof fn lemma_shapes_agree<U: ExtractMethod, W: ExtractMethod>(a: Seq<U>, b: Seq<W>)
    requires
        identities(a) == identities(b),
    ensures
        container_reports(a).len() == container_reports(b).len(),
        forall|k: int|
            0 <= k < container_reports(a).len() ==> {
                let m = flagged(identities(a), a.len())[k];
                &&& 0 <= m < a.len()
                &&& (#[trigger] container_reports(a)[k]).span == a[m].span_spec()
                &&& container_reports(b)[k].span == b[m].span_spec()
                &&& container_reports(a)[k].code == container_reports(b)[k].code
                &&& container_reports(a)[k].message == container_reports(b)[k].message
                &&& container_reports(a)[k].hint == container_reports(b)[k].hint
            },
{
    let ids = identities(a);
    assert(a.len() == ids.len());
    assert(b.len() == identities(b).len());
    lemma_reports_follow_flagged(ids, spans(a), a.len());
    lemma_reports_follow_flagged(ids, spans(b), b.len());
}

} // verus!
