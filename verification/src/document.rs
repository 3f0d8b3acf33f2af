//! The part of a Terraform document that this crate reads and writes: bodies
//! of attributes and blocks, and the expressions that attributes are set to.

use vstd::prelude::*;
use crate::search::{first_position, lemma_first_position, lemma_first_position_is};
use crate::text::{text_eq, texts};
use crate::trusted::{hcl_number, is_number_text};

verus! {

/// A key of an object: written bare or as a quoted string.
#[derive(Debug)]
pub enum TfKey {
    Identifier(String),
    Quoted(String),
}

/// What a key holds.
pub enum KeyView {
    Identifier(Seq<char>),
    Quoted(Seq<char>),
}

impl View for TfKey {
    type V = KeyView;

    open spec fn view(&self) -> KeyView {
        match self {
            TfKey::Identifier(s) => KeyView::Identifier(s@),
            TfKey::Quoted(s) => KeyView::Quoted(s@),
        }
    }
}

impl KeyView {
    /// The text of the key, however it was written.
    pub open spec fn text(self) -> Seq<char> {
        match self {
            KeyView::Identifier(s) => s,
            KeyView::Quoted(s) => s,
        }
    }
}

impl TfKey {
    /// The text of the key, however it was written.
    pub fn text(&self) -> (r: &String)
        ensures
            r@ == self@.text(),
    {
        match self {
            TfKey::Identifier(s) => s,
            TfKey::Quoted(s) => s,
        }
    }

    /// Whether two keys are written the same way with the same text.
    pub fn same(&self, other: &TfKey) -> (r: bool)
        ensures
            r == (self@ == other@),
    {
        match (self, other) {
            (TfKey::Identifier(a), TfKey::Identifier(b)) => text_eq(a.as_str(), b.as_str()),
            (TfKey::Quoted(a), TfKey::Quoted(b)) => text_eq(a.as_str(), b.as_str()),
            _ => false,
        }
    }
}

impl Clone for TfKey {
    fn clone(&self) -> (r: TfKey)
        ensures
            r@ == self@,
    {
        match self {
            TfKey::Identifier(s) => TfKey::Identifier(s.clone()),
            TfKey::Quoted(s) => TfKey::Quoted(s.clone()),
        }
    }
}

/// An expression. `Number` holds the number's decimal text, and is printed
/// as the number that this text is read as; `Unsupported` stands for every
/// expression that this crate neither reads nor writes.
#[derive(Debug)]
pub enum TfExpression {
    Null,
    Bool(bool),
    Number(String),
    String(String),
    Array(Vec<TfExpression>),
    Object(TfObject),
    Variable(String),
    Traversal { root: Box<TfExpression>, attrs: Vec<String> },
    FuncCall { name: String, args: Vec<TfExpression>, expand_final: bool },
    Unsupported,
}

/// An object: keys with their values, in the order in which they are written.
#[derive(Debug)]
pub struct TfObject {
    pub entries: Vec<(TfKey, TfExpression)>,
}

/// What an expression holds.
pub enum ExprView {
    Null,
    Bool(bool),
    Number(Seq<char>),
    Str(Seq<char>),
    Array(Seq<ExprView>),
    Object(ObjectView),
    Variable(Seq<char>),
    Traversal { root: Box<ExprView>, attrs: Seq<Seq<char>> },
    FuncCall { name: Seq<char>, args: Seq<ExprView>, expand_final: bool },
    Unsupported,
}

/// What an object holds.
pub struct ObjectView {
    pub entries: Seq<(KeyView, ExprView)>,
}

/// The view of an expression.
pub open spec fn expression_view(e: TfExpression) -> ExprView
    decreases e,
{
    match e {
        TfExpression::Null => ExprView::Null,
        TfExpression::Bool(b) => ExprView::Bool(b),
        TfExpression::Number(s) => ExprView::Number(s@),
        TfExpression::String(s) => ExprView::Str(s@),
        TfExpression::Array(items) => ExprView::Array(expression_views(items@)),
        TfExpression::Object(object) => ExprView::Object(
            ObjectView { entries: entry_views(object.entries@) },
        ),
        TfExpression::Variable(s) => ExprView::Variable(s@),
        TfExpression::Traversal { root, attrs } => ExprView::Traversal {
            root: Box::new(expression_view(*root)),
            attrs: texts(attrs@),
        },
        TfExpression::FuncCall { name, args, expand_final } => ExprView::FuncCall {
            name: name@,
            args: expression_views(args@),
            expand_final,
        },
        TfExpression::Unsupported => ExprView::Unsupported,
    }
}

/// The views of a list of expressions.
pub open spec fn expression_views(items: Seq<TfExpression>) -> Seq<ExprView>
    decreases items,
{
    Seq::new(
        items.len(),
        |i: int|
            if 0 <= i < items.len() {
                expression_view(items[i])
            } else {
                ExprView::Null
            },
    )
}

/// The views of the entries of an object.
pub open spec fn entry_views(entries: Seq<(TfKey, TfExpression)>) -> Seq<(KeyView, ExprView)>
    decreases entries,
{
    Seq::new(
        entries.len(),
        |i: int|
            if 0 <= i < entries.len() {
                (entries[i].0@, expression_view(entries[i].1))
            } else {
                (KeyView::Quoted(Seq::empty()), ExprView::Null)
            },
    )
}

impl View for TfExpression {
    type V = ExprView;

    open spec fn view(&self) -> ExprView {
        expression_view(*self)
    }
}

impl View for TfObject {
    type V = ObjectView;

    open spec fn view(&self) -> ObjectView {
        ObjectView { entries: entry_views(self.entries@) }
    }
}

/// The views of a list are the views of its items, one by one.
pub proof fn lemma_expression_views(items: Seq<TfExpression>)
    ensures
        expression_views(items).len() == items.len(),
        forall|i: int|
            0 <= i < items.len() ==> (#[trigger] expression_views(items)[i]) == items[i]@,
{
}

impl TfExpression {
    /// The string `text`.
    pub fn text(text: &str) -> (r: TfExpression)
        ensures
            r@ == ExprView::Str(text@),
    {
        TfExpression::String(String::from_str(text))
    }

    /// The variable called `name`.
    pub fn variable(name: &str) -> (r: TfExpression)
        ensures
            r@ == ExprView::Variable(name@),
    {
        TfExpression::Variable(String::from_str(name))
    }

    /// The array of `items`.
    pub fn array(items: Vec<TfExpression>) -> (r: TfExpression)
        ensures
            r@ == ExprView::Array(expression_views(items@)),
    {
        TfExpression::Array(items)
    }

    /// The object `object` as an expression.
    pub fn object(object: TfObject) -> (r: TfExpression)
        ensures
            r@ == ExprView::Object(object@),
    {
        TfExpression::Object(object)
    }

    /// The chain of attribute names `attrs` on `root`.
    pub fn traversal(root: TfExpression, attrs: Vec<String>) -> (r: TfExpression)
        ensures
            r@ == (ExprView::Traversal { root: Box::new(root@), attrs: texts(attrs@) }),
    {
        TfExpression::Traversal { root: Box::new(root), attrs }
    }

    /// The call of the function `name` on `args`.
    pub fn call(name: &str, args: Vec<TfExpression>) -> (r: TfExpression)
        ensures
            r@ == (ExprView::FuncCall {
                name: name@,
                args: expression_views(args@),
                expand_final: false,
            }),
    {
        TfExpression::FuncCall { name: String::from_str(name), args, expand_final: false }
    }
}

/// The condition of having the key `key`, as a value.
pub open spec fn has_key(key: KeyView) -> spec_fn((KeyView, ExprView)) -> bool {
    |entry: (KeyView, ExprView)| entry.0 == key
}

/// The position of the first entry with key `key`, or the length if there is none.
pub open spec fn object_position(entries: Seq<(KeyView, ExprView)>, key: KeyView) -> int {
    first_position(entries, has_key(key))
}

/// The position is in range, no entry before it has the key, and the entry
/// at it has.
pub proof fn lemma_object_position(entries: Seq<(KeyView, ExprView)>, key: KeyView)
    ensures
        0 <= object_position(entries, key) <= entries.len(),
        forall|i: int|
            0 <= i < object_position(entries, key) ==> (#[trigger] entries[i]).0 != key,
        object_position(entries, key) < entries.len() ==> entries[object_position(
            entries,
            key,
        )].0 == key,
{
    lemma_first_position(entries, has_key(key));
}

impl ObjectView {
    /// The object without entries.
    pub open spec fn empty() -> ObjectView {
        ObjectView { entries: Seq::empty() }
    }

    /// Whether an entry has the key `key`.
    pub open spec fn has(self, key: KeyView) -> bool {
        object_position(self.entries, key) < self.entries.len()
    }

    /// The value of the first entry with the key `key`.
    pub open spec fn value(self, key: KeyView) -> ExprView
        recommends
            self.has(key),
    {
        self.entries[object_position(self.entries, key)].1
    }

    /// No key occurs twice.
    pub open spec fn distinct(self) -> bool {
        forall|i: int, j: int|
            0 <= i < j < self.entries.len() ==> (#[trigger] self.entries[i]).0 != (
            #[trigger] self.entries[j]).0
    }

    /// The object after `key` was set to `value`: an entry with that key keeps
    /// its place and takes the value, a new key goes to the end.
    pub open spec fn put(self, key: KeyView, value: ExprView) -> ObjectView {
        let at = object_position(self.entries, key);
        if at < self.entries.len() {
            ObjectView { entries: self.entries.update(at, (key, value)) }
        } else {
            ObjectView { entries: self.entries.push((key, value)) }
        }
    }
}

/// A key that was set is there with the value that it was set to.
pub proof fn lemma_put_value(o: ObjectView, key: KeyView, value: ExprView)
    ensures
        o.put(key, value).has(key),
        o.put(key, value).value(key) == value,
{
    let after = o.put(key, value);
    let at = object_position(o.entries, key);
    lemma_object_position(o.entries, key);
    assert forall|i: int| 0 <= i < at implies !has_key(key)(#[trigger] after.entries[i]) by {
        assert(after.entries[i] == o.entries[i]);
    }
    assert(has_key(key)(after.entries[at]));
    lemma_first_position_is(after.entries, has_key(key), at);
}

/// Setting a key leaves every other key as it was.
pub proof fn lemma_put_other(o: ObjectView, key: KeyView, value: ExprView, other: KeyView)
    requires
        other != key,
    ensures
        o.put(key, value).has(other) == o.has(other),
        o.has(other) ==> o.put(key, value).value(other) == o.value(other),
{
    let after = o.put(key, value);
    let at = object_position(o.entries, other);
    lemma_object_position(o.entries, other);
    lemma_object_position(o.entries, key);
    assert forall|i: int| 0 <= i < at implies !has_key(other)(#[trigger] after.entries[i]) by {
        if i != object_position(o.entries, key) {
            assert(after.entries[i] == o.entries[i]);
        }
    }
    if at < o.entries.len() {
        assert(at != object_position(o.entries, key));
        assert(after.entries[at] == o.entries[at]);
        lemma_first_position_is(after.entries, has_key(other), at);
    } else {
        assert forall|i: int| 0 <= i < after.entries.len() implies !has_key(other)(
            #[trigger] after.entries[i],
        ) by {
            if i < o.entries.len() && i != object_position(o.entries, key) {
                assert(after.entries[i] == o.entries[i]);
            }
        }
        lemma_first_position_is(after.entries, has_key(other), after.entries.len() as int);
    }
}

/// Setting a key never makes a key occur twice.
pub proof fn lemma_put_distinct(o: ObjectView, key: KeyView, value: ExprView)
    requires
        o.distinct(),
    ensures
        o.put(key, value).distinct(),
{
    let after = o.put(key, value);
    let at = object_position(o.entries, key);
    lemma_object_position(o.entries, key);
    assert forall|i: int, j: int| 0 <= i < j < after.entries.len() implies (
    #[trigger] after.entries[i]).0 != (#[trigger] after.entries[j]).0 by {
        if at < o.entries.len() {
            assert(after.entries[i].0 == o.entries[i].0);
            assert(after.entries[j].0 == o.entries[j].0);
        } else if j < o.entries.len() {
            assert(after.entries[i] == o.entries[i]);
            assert(after.entries[j] == o.entries[j]);
        } else {
            assert(after.entries[i] == o.entries[i]);
        }
    }
}

impl TfObject {
    /// The object without entries.
    pub fn new() -> (r: TfObject)
        ensures
            r@ == ObjectView::empty(),
    {
        let r = TfObject { entries: Vec::new() };
        assert(r@.entries =~= Seq::empty());
        r
    }

    /// The number of entries.
    pub fn len(&self) -> (r: usize)
        ensures
            r == self@.entries.len(),
    {
        self.entries.len()
    }

    /// Whether the object has no entry.
    pub fn is_empty(&self) -> (r: bool)
        ensures
            r == (self@.entries.len() == 0),
    {
        self.entries.len() == 0
    }

    /// The position of the entry with key `key`, or the number of entries.
    fn position(&self, key: &TfKey) -> (r: usize)
        ensures
            r == object_position(self@.entries, key@),
    {
        let mut i: usize = 0;
        while i < self.entries.len()
            invariant
                0 <= i <= self.entries.len(),
                self@.entries.len() == self.entries@.len(),
                forall|j: int| 0 <= j < i ==> !has_key(key@)(#[trigger] self@.entries[j]),
            decreases self.entries.len() - i,
        {
            if self.entries[i].0.same(key) {
                proof {
                    lemma_first_position_is(self@.entries, has_key(key@), i as int);
                }
                return i;
            }
            i = i + 1;
        }
        proof {
            lemma_first_position_is(self@.entries, has_key(key@), i as int);
        }
        i
    }

    /// Whether an entry has the key `key`.
    pub fn contains_key(&self, key: &TfKey) -> (r: bool)
        ensures
            r == self@.has(key@),
    {
        self.position(key) < self.entries.len()
    }

    /// Sets `key` to `value`.
    pub fn insert(&mut self, key: TfKey, value: TfExpression)
        ensures
            final(self)@ == old(self)@.put(key@, value@),
    {
        let at: usize = self.position(&key);
        if at < self.entries.len() {
            self.entries.set(at, (key, value));
            assert(self@.entries =~= old(self)@.put(key@, value@).entries);
        } else {
            self.entries.push((key, value));
            assert(self@.entries =~= old(self)@.put(key@, value@).entries);
        }
    }
}

/// An attribute of a body: `key = expr`.
#[derive(Debug)]
pub struct TfAttribute {
    pub key: String,
    pub expr: TfExpression,
}

/// A block: `identifier "label" ... { body }`.
#[derive(Debug)]
pub struct TfBlock {
    pub identifier: String,
    pub labels: Vec<String>,
    pub body: TfBody,
}

/// What a body is made of.
#[derive(Debug)]
pub enum TfStructure {
    Attribute(TfAttribute),
    Block(TfBlock),
}

/// A whole document, or what stands between the braces of a block.
#[derive(Debug)]
pub struct TfBody {
    pub structures: Vec<TfStructure>,
}

/// What an attribute holds.
pub struct AttributeView {
    pub key: Seq<char>,
    pub expr: ExprView,
}

/// What a block holds.
pub struct BlockView {
    pub identifier: Seq<char>,
    pub labels: Seq<Seq<char>>,
    pub body: BodyView,
}

/// What a structure holds.
pub enum StructureView {
    Attribute(AttributeView),
    Block(BlockView),
}

/// What a body holds.
pub struct BodyView {
    pub structures: Seq<StructureView>,
}

impl View for TfAttribute {
    type V = AttributeView;

    open spec fn view(&self) -> AttributeView {
        AttributeView { key: self.key@, expr: self.expr@ }
    }
}

/// The view of a structure.
pub open spec fn structure_view(s: TfStructure) -> StructureView
    decreases s,
{
    match s {
        TfStructure::Attribute(a) => StructureView::Attribute(a@),
        TfStructure::Block(b) => StructureView::Block(
            BlockView {
                identifier: b.identifier@,
                labels: texts(b.labels@),
                body: BodyView { structures: structure_views(b.body.structures@) },
            },
        ),
    }
}

/// The views of a list of structures.
pub open spec fn structure_views(items: Seq<TfStructure>) -> Seq<StructureView>
    decreases items,
{
    Seq::new(
        items.len(),
        |i: int|
            if 0 <= i < items.len() {
                structure_view(items[i])
            } else {
                StructureView::Attribute(
                    AttributeView { key: Seq::empty(), expr: ExprView::Null },
                )
            },
    )
}

impl View for TfBody {
    type V = BodyView;

    open spec fn view(&self) -> BodyView {
        BodyView { structures: structure_views(self.structures@) }
    }
}

impl View for TfBlock {
    type V = BlockView;

    open spec fn view(&self) -> BlockView {
        BlockView { identifier: self.identifier@, labels: texts(self.labels@), body: self.body@ }
    }
}

impl View for TfStructure {
    type V = StructureView;

    open spec fn view(&self) -> StructureView {
        structure_view(*self)
    }
}

/// The views of a list are the views of its items, one by one.
pub proof fn lemma_structure_views(items: Seq<TfStructure>)
    ensures
        structure_views(items).len() == items.len(),
        forall|i: int|
            0 <= i < items.len() ==> (#[trigger] structure_views(items)[i]) == items[i]@,
{
}

impl TfStructure {
    /// The attribute `key = expr`.
    pub fn attribute(key: &str, expr: TfExpression) -> (r: TfStructure)
        ensures
            r@ == StructureView::Attribute(AttributeView { key: key@, expr: expr@ }),
    {
        TfStructure::Attribute(TfAttribute { key: String::from_str(key), expr })
    }

    /// The block `identifier "labels" { body }`.
    pub fn block(identifier: &str, labels: Vec<String>, body: TfBody) -> (r: TfStructure)
        ensures
            r@ == StructureView::Block(
                BlockView { identifier: identifier@, labels: texts(labels@), body: body@ },
            ),
    {
        TfStructure::Block(TfBlock { identifier: String::from_str(identifier), labels, body })
    }
}

impl TfBody {
    /// The body that holds `structures` in this order.
    pub fn new(structures: Vec<TfStructure>) -> (r: TfBody)
        ensures
            r@ == (BodyView { structures: structure_views(structures@) }),
    {
        TfBody { structures }
    }
}

/// Whether an expression is one that can be handed to the printer: a number
/// is where its text is read as a number, an unsupported expression is not.
pub open spec fn printable(e: ExprView) -> bool
    decreases e, 0nat,
{
    match e {
        ExprView::Number(text) => hcl_number(text),
        ExprView::Unsupported => false,
        ExprView::Array(items) => printable_items(items),
        ExprView::Object(object) => printable_entries(object.entries),
        ExprView::Traversal { root, attrs } => printable(*root),
        ExprView::FuncCall { name, args, expand_final } => printable_items(args),
        _ => true,
    }
}

/// Whether every expression of a list is printable.
pub open spec fn printable_items(items: Seq<ExprView>) -> bool
    decreases items, 1nat,
{
    forall|i: int| 0 <= i < items.len() ==> printable(#[trigger] items[i])
}

/// Whether every value of a list of entries is printable.
pub open spec fn printable_entries(entries: Seq<(KeyView, ExprView)>) -> bool
    decreases entries, 1nat,
{
    forall|i: int| 0 <= i < entries.len() ==> printable((#[trigger] entries[i]).1)
}

/// Whether every expression in a body is printable.
pub open spec fn printable_body(body: BodyView) -> bool
    decreases body, 0nat,
{
    printable_structures(body.structures)
}

/// Whether every expression in a list of structures is printable.
pub open spec fn printable_structures(structures: Seq<StructureView>) -> bool
    decreases structures, 1nat,
{
    forall|i: int| 0 <= i < structures.len() ==> printable_structure(#[trigger] structures[i])
}

/// Whether every expression in a structure is printable.
pub open spec fn printable_structure(s: StructureView) -> bool
    decreases s, 0nat,
{
    match s {
        StructureView::Attribute(a) => printable(a.expr),
        StructureView::Block(b) => printable_body(b.body),
    }
}

impl TfExpression {
    /// Whether the expression can be handed to the printer.
    pub fn is_printable(&self) -> (r: bool)
        ensures
            r == printable(self@),
        decreases self,
    {
        match self {
            TfExpression::Number(text) => is_number_text(text.as_str()),
            TfExpression::Unsupported => false,
            TfExpression::Array(items) => all_printable(items),
            TfExpression::Object(object) => all_values_printable(&object.entries),
            TfExpression::Traversal { root, attrs } => root.is_printable(),
            TfExpression::FuncCall { name, args, expand_final } => all_printable(args),
            _ => true,
        }
    }
}

/// Whether every expression of a list can be handed to the printer.
pub fn all_printable(items: &Vec<TfExpression>) -> (r: bool)
    ensures
        r == printable_items(expression_views(items@)),
    decreases items,
{
    let mut i: usize = 0;
    let ghost views = expression_views(items@);
    proof {
        lemma_expression_views(items@);
    }
    while i < items.len()
        invariant
            0 <= i <= items.len(),
            views == expression_views(items@),
            views.len() == items@.len(),
            forall|j: int| 0 <= j < items@.len() ==> (#[trigger] views[j]) == items@[j]@,
            forall|j: int| 0 <= j < i ==> printable(#[trigger] views[j]),
        decreases items.len() - i,
    {
        if !items[i].is_printable() {
            assert(!printable(views[i as int]));
            return false;
        }
        i = i + 1;
    }
    true
}

/// Whether every value of a list of entries can be handed to the printer.
pub fn all_values_printable(entries: &Vec<(TfKey, TfExpression)>) -> (r: bool)
    ensures
        r == printable_entries(entry_views(entries@)),
    decreases entries,
{
    let mut i: usize = 0;
    let ghost views = entry_views(entries@);
    while i < entries.len()
        invariant
            0 <= i <= entries.len(),
            views == entry_views(entries@),
            views.len() == entries@.len(),
            forall|j: int| 0 <= j < i ==> printable((#[trigger] views[j]).1),
        decreases entries.len() - i,
    {
        assert(views[i as int].1 == entries@[i as int].1@);
        if !entries[i].1.is_printable() {
            assert(!printable(views[i as int].1));
            return false;
        }
        i = i + 1;
    }
    true
}

impl TfStructure {
    /// Whether every expression in the structure can be handed to the printer.
    pub fn is_printable(&self) -> (r: bool)
        ensures
            r == printable_structure(self@),
        decreases self,
    {
        match self {
            TfStructure::Attribute(attribute) => attribute.expr.is_printable(),
            TfStructure::Block(block) => all_structures_printable(&block.body.structures),
        }
    }
}

/// Whether every structure of a list can be handed to the printer.
pub fn all_structures_printable(structures: &Vec<TfStructure>) -> (r: bool)
    ensures
        r == printable_structures(structure_views(structures@)),
    decreases structures,
{
    let mut i: usize = 0;
    let ghost views = structure_views(structures@);
    proof {
        lemma_structure_views(structures@);
    }
    while i < structures.len()
        invariant
            0 <= i <= structures.len(),
            views == structure_views(structures@),
            views.len() == structures@.len(),
            forall|j: int| 0 <= j < structures@.len() ==> (#[trigger] views[j]) == structures@[j]@,
            forall|j: int| 0 <= j < i ==> printable_structure(#[trigger] views[j]),
        decreases structures.len() - i,
    {
        if !structures[i].is_printable() {
            assert(!printable_structure(views[i as int]));
            return false;
        }
        i = i + 1;
    }
    true
}

impl TfBody {
    /// Whether every expression in the body can be handed to the printer.
    pub fn is_printable(&self) -> (r: bool)
        ensures
            r == printable_body(self@),
    {
        all_structures_printable(&self.structures)
    }
}

} // verus!
