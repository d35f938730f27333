//! Payloads: the values that travel between a worker's owner and its task.
//!
//! A payload is a small tagged value. The owner of a worker and the task agree by
//! the field's name on which kind of payload a field carries; recovering a typed
//! value from a payload of another kind fails and hands the payload back.

use crate::error::{FofError, FofErrorView};
use crate::filter_buildings::{Building, BuildingView};
use crate::tasks::{TrainStatus, TrainStatusView};
use vstd::prelude::*;

verus! {

/// A value carried in a message or kept in a cache.
#[derive(Debug, PartialEq)]
pub enum Payload {
    /// Nothing.
    Unit,
    /// A flag.
    Bool(bool),
    /// A number of 32 bits with sign.
    I32(i32),
    /// A number of 64 bits with sign.
    I64(i64),
    /// A number of 64 bits without sign.
    U64(u64),
    /// A count or an index.
    Usize(usize),
    /// A text.
    Text(String),
    /// Bytes.
    Bytes(Vec<u8>),
    /// How far a training has come.
    Status(TrainStatus),
    /// Detections.
    Buildings(Vec<Building>),
    /// A failure.
    Failure(FofError),
}

/// What a payload holds, as plain values.
pub enum PayloadView {
    Unit,
    Bool(bool),
    I32(i32),
    I64(i64),
    U64(u64),
    Usize(usize),
    Text(Seq<char>),
    Bytes(Seq<u8>),
    Status(TrainStatusView),
    Buildings(Seq<BuildingView>),
    Failure(FofErrorView),
}

/// The kinds of payloads.
#[derive(Clone, Copy, Debug, PartialEq, Eq, Structural)]
pub enum PayloadKind {
    Unit,
    Bool,
    I32,
    I64,
    U64,
    Usize,
    Text,
    Bytes,
    Status,
    Buildings,
    Failure,
}

/// The views of a list of detections.
pub open spec fn buildings_view(buildings: Seq<Building>) -> Seq<BuildingView> {
    buildings.map_values(|b: Building| b@)
}

/// A copy of a list of detections.
pub fn clone_buildings(buildings: &Vec<Building>) -> (copy: Vec<Building>)
    ensures
        buildings_view(copy@) == buildings_view(buildings@),
{
    let mut copy: Vec<Building> = Vec::new();
    let mut i: usize = 0;
    while i < buildings.len()
        invariant
            0 <= i <= buildings.len(),
            copy@.len() == i,
            forall|k: int| 0 <= k < i ==> (#[trigger] copy@[k])@ == buildings@[k]@,
        decreases buildings.len() - i,
    {
        copy.push(buildings[i].clone());
        i = i + 1;
    }
    assert(buildings_view(copy@) =~= buildings_view(buildings@));
    copy
}

impl View for Payload {
    type V = PayloadView;

    open spec fn view(&self) -> PayloadView {
        match self {
            Payload::Unit => PayloadView::Unit,
            Payload::Bool(v) => PayloadView::Bool(*v),
            Payload::I32(v) => PayloadView::I32(*v),
            Payload::I64(v) => PayloadView::I64(*v),
            Payload::U64(v) => PayloadView::U64(*v),
            Payload::Usize(v) => PayloadView::Usize(*v),
            Payload::Text(v) => PayloadView::Text(v@),
            Payload::Bytes(v) => PayloadView::Bytes(v@),
            Payload::Status(v) => PayloadView::Status(v@),
            Payload::Buildings(v) => PayloadView::Buildings(buildings_view(v@)),
            Payload::Failure(v) => PayloadView::Failure(v@),
        }
    }
}

impl PayloadView {
    /// The kind of the payload.
    pub open spec fn kind(self) -> PayloadKind {
        match self {
            PayloadView::Unit => PayloadKind::Unit,
            PayloadView::Bool(_) => PayloadKind::Bool,
            PayloadView::I32(_) => PayloadKind::I32,
            PayloadView::I64(_) => PayloadKind::I64,
            PayloadView::U64(_) => PayloadKind::U64,
            PayloadView::Usize(_) => PayloadKind::Usize,
            PayloadView::Text(_) => PayloadKind::Text,
            PayloadView::Bytes(_) => PayloadKind::Bytes,
            PayloadView::Status(_) => PayloadKind::Status,
            PayloadView::Buildings(_) => PayloadKind::Buildings,
            PayloadView::Failure(_) => PayloadKind::Failure,
        }
    }
}

impl Payload {
    /// The kind of the payload.
    pub fn kind(&self) -> (kind: PayloadKind)
        ensures
            kind == self@.kind(),
    {
        match self {
            Payload::Unit => PayloadKind::Unit,
            Payload::Bool(_) => PayloadKind::Bool,
            Payload::I32(_) => PayloadKind::I32,
            Payload::I64(_) => PayloadKind::I64,
            Payload::U64(_) => PayloadKind::U64,
            Payload::Usize(_) => PayloadKind::Usize,
            Payload::Text(_) => PayloadKind::Text,
            Payload::Bytes(_) => PayloadKind::Bytes,
            Payload::Status(_) => PayloadKind::Status,
            Payload::Buildings(_) => PayloadKind::Buildings,
            Payload::Failure(_) => PayloadKind::Failure,
        }
    }
}

impl Clone for Payload {
    /// A copy that holds the same value.
    fn clone(&self) -> (copy: Self)
        ensures
            copy@ == self@,
    {
        match self {
            Payload::Unit => Payload::Unit,
            Payload::Bool(v) => Payload::Bool(*v),
            Payload::I32(v) => Payload::I32(*v),
            Payload::I64(v) => Payload::I64(*v),
            Payload::U64(v) => Payload::U64(*v),
            Payload::Usize(v) => Payload::Usize(*v),
            Payload::Text(v) => Payload::Text(v.clone()),
            Payload::Bytes(v) => {
                let copy = v.clone();
                assert(copy@ =~= v@);
                Payload::Bytes(copy)
            },
            Payload::Status(v) => Payload::Status(v.clone()),
            Payload::Buildings(v) => Payload::Buildings(clone_buildings(v)),
            Payload::Failure(v) => Payload::Failure(v.clone()),
        }
    }
}

/// The view of an optional payload.
pub open spec fn view_of(p: Option<Payload>) -> Option<PayloadView> {
    match p {
        Some(v) => Some(v@),
        None => None,
    }
}

/// A type whose values can be carried as payloads and recovered from them.
pub trait AnyClone: Sized {
    /// The payload that carries this value.
    spec fn boxed(&self) -> PayloadView;

    /// Whether a payload carries a value of this type.
    spec fn carried_by(p: PayloadView) -> bool;

    /// Wraps a copy of the value into a payload.
    fn clone_box(&self) -> (b: Payload)
        ensures
            b@ == self.boxed(),
            Self::carried_by(b@),
    ;

    /// Recovers the value from a payload that carries one of this type; any
    /// other payload comes back untouched.
    fn unbox(b: Payload) -> (r: Result<Self, Payload>)
        ensures
            r is Ok <==> Self::carried_by(b@),
            r matches Ok(v) ==> v.boxed() == b@,
            r matches Err(e) ==> e == b,
    ;
}

/// The payload that an optional payload stands for when a value of type `U` is
/// asked for: `None` where there is no payload or where it carries no `U`.
pub open spec fn recovered<U: AnyClone>(p: Option<PayloadView>) -> Option<PayloadView> {
    match p {
        Some(v) => if U::carried_by(v) {
            Some(v)
        } else {
            None
        },
        None => None,
    }
}

/// Whether an optional typed value is the one that the optional payload `p`
/// carries.
pub open spec fn recovers<U: AnyClone>(r: Option<U>, p: Option<PayloadView>) -> bool {
    match r {
        Some(u) => p == Some(u.boxed()),
        None => p is None,
    }
}

/// Recovers a typed value from a payload: `Ok` with the value where the payload
/// carries a `T`, `Err` with the untouched payload where it does not.
pub fn downcast_box<T: AnyClone>(b: Payload) -> (r: Result<T, Payload>)
    ensures
        r is Ok <==> T::carried_by(b@),
        r matches Ok(v) ==> v.boxed() == b@,
        r matches Err(e) ==> e == b,
{
    T::unbox(b)
}

/// Recovers a typed value from a borrowed payload by copying it: `Some` exactly
/// where the payload carries a `T`.
pub fn downcast_ref<T: AnyClone>(b: &Payload) -> (r: Option<T>)
    ensures
        recovers(r, recovered::<T>(Some(b@))),
{
    match T::unbox(b.clone()) {
        Ok(v) => Some(v),
        Err(_) => None,
    }
}

impl AnyClone for () {
    open spec fn boxed(&self) -> PayloadView {
        PayloadView::Unit
    }

    open spec fn carried_by(p: PayloadView) -> bool {
        p is Unit
    }

    fn clone_box(&self) -> (b: Payload) {
        Payload::Unit
    }

    fn unbox(b: Payload) -> (r: Result<Self, Payload>) {
        match b {
            Payload::Unit => Ok(()),
            other => Err(other),
        }
    }
}

impl AnyClone for bool {
    open spec fn boxed(&self) -> PayloadView {
        PayloadView::Bool(*self)
    }

    open spec fn carried_by(p: PayloadView) -> bool {
        p is Bool
    }

    fn clone_box(&self) -> (b: Payload) {
        Payload::Bool(*self)
    }

    fn unbox(b: Payload) -> (r: Result<Self, Payload>) {
        match b {
            Payload::Bool(v) => Ok(v),
            other => Err(other),
        }
    }
}

impl AnyClone for i32 {
    open spec fn boxed(&self) -> PayloadView {
        PayloadView::I32(*self)
    }

    open spec fn carried_by(p: PayloadView) -> bool {
        p is I32
    }

    fn clone_box(&self) -> (b: Payload) {
        Payload::I32(*self)
    }

    fn unbox(b: Payload) -> (r: Result<Self, Payload>) {
        match b {
            Payload::I32(v) => Ok(v),
            other => Err(other),
        }
    }
}

impl AnyClone for i64 {
    open spec fn boxed(&self) -> PayloadView {
        PayloadView::I64(*self)
    }

    open spec fn carried_by(p: PayloadView) -> bool {
        p is I64
    }

    fn clone_box(&self) -> (b: Payload) {
        Payload::I64(*self)
    }

    fn unbox(b: Payload) -> (r: Result<Self, Payload>) {
        match b {
            Payload::I64(v) => Ok(v),
            other => Err(other),
        }
    }
}

impl AnyClone for u64 {
    open spec fn boxed(&self) -> PayloadView {
        PayloadView::U64(*self)
    }

    open spec fn carried_by(p: PayloadView) -> bool {
        p is U64
    }

    fn clone_box(&self) -> (b: Payload) {
        Payload::U64(*self)
    }

    fn unbox(b: Payload) -> (r: Result<Self, Payload>) {
        match b {
            Payload::U64(v) => Ok(v),
            other => Err(other),
        }
    }
}

impl AnyClone for usize {
    open spec fn boxed(&self) -> PayloadView {
        PayloadView::Usize(*self)
    }

    open spec fn carried_by(p: PayloadView) -> bool {
        p is Usize
    }

    fn clone_box(&self) -> (b: Payload) {
        Payload::Usize(*self)
    }

    fn unbox(b: Payload) -> (r: Result<Self, Payload>) {
        match b {
            Payload::Usize(v) => Ok(v),
            other => Err(other),
        }
    }
}

impl AnyClone for String {
    open spec fn boxed(&self) -> PayloadView {
        PayloadView::Text(self@)
    }

    open spec fn carried_by(p: PayloadView) -> bool {
        p is Text
    }

    fn clone_box(&self) -> (b: Payload) {
        Payload::Text(self.clone())
    }

    fn unbox(b: Payload) -> (r: Result<Self, Payload>) {
        match b {
            Payload::Text(v) => Ok(v),
            other => Err(other),
        }
    }
}

impl AnyClone for Vec<u8> {
    open spec fn boxed(&self) -> PayloadView {
        PayloadView::Bytes(self@)
    }

    open spec fn carried_by(p: PayloadView) -> bool {
        p is Bytes
    }

    fn clone_box(&self) -> (b: Payload) {
        let copy = self.clone();
        assert(copy@ =~= self@);
        Payload::Bytes(copy)
    }

    fn unbox(b: Payload) -> (r: Result<Self, Payload>) {
        match b {
            Payload::Bytes(v) => Ok(v),
            other => Err(other),
        }
    }
}

impl AnyClone for TrainStatus {
    open spec fn boxed(&self) -> PayloadView {
        PayloadView::Status(self@)
    }

    open spec fn carried_by(p: PayloadView) -> bool {
        p is Status
    }

    fn clone_box(&self) -> (b: Payload) {
        Payload::Status(self.clone())
    }

    fn unbox(b: Payload) -> (r: Result<Self, Payload>) {
        match b {
            Payload::Status(v) => Ok(v),
            other => Err(other),
        }
    }
}

impl AnyClone for Vec<Building> {
    open spec fn boxed(&self) -> PayloadView {
        PayloadView::Buildings(buildings_view(self@))
    }

    open spec fn carried_by(p: PayloadView) -> bool {
        p is Buildings
    }

    fn clone_box(&self) -> (b: Payload) {
        Payload::Buildings(clone_buildings(self))
    }

    fn unbox(b: Payload) -> (r: Result<Self, Payload>) {
        match b {
            Payload::Buildings(v) => Ok(v),
            other => Err(other),
        }
    }
}

impl AnyClone for FofError {
    open spec fn boxed(&self) -> PayloadView {
        PayloadView::Failure(self@)
    }

    open spec fn carried_by(p: PayloadView) -> bool {
        p is Failure
    }

    fn clone_box(&self) -> (b: Payload) {
        Payload::Failure(self.clone())
    }

    fn unbox(b: Payload) -> (r: Result<Self, Payload>) {
        match b {
            Payload::Failure(v) => Ok(v),
            other => Err(other),
        }
    }
}

/// A count that may be missing travels as the count, or as nothing.
impl AnyClone for Option<usize> {
    open spec fn boxed(&self) -> PayloadView {
        match self {
            Some(n) => PayloadView::Usize(*n),
            None => PayloadView::Unit,
        }
    }

    open spec fn carried_by(p: PayloadView) -> bool {
        p is Usize || p is Unit
    }

    fn clone_box(&self) -> (b: Payload) {
        match self {
            Some(n) => Payload::Usize(*n),
            None => Payload::Unit,
        }
    }

    fn unbox(b: Payload) -> (r: Result<Self, Payload>) {
        match b {
            Payload::Usize(n) => Ok(Some(n)),
            Payload::Unit => Ok(None),
            other => Err(other),
        }
    }
}

/// Detections or the failure to get them travel as the one or the other.
impl AnyClone for Result<Vec<Building>, FofError> {
    open spec fn boxed(&self) -> PayloadView {
        match self {
            Ok(buildings) => PayloadView::Buildings(buildings_view(buildings@)),
            Err(failure) => PayloadView::Failure(failure@),
        }
    }

    open spec fn carried_by(p: PayloadView) -> bool {
        p is Buildings || p is Failure
    }

    fn clone_box(&self) -> (b: Payload) {
        match self {
            Ok(buildings) => Payload::Buildings(clone_buildings(buildings)),
            Err(failure) => Payload::Failure(failure.clone()),
        }
    }

    fn unbox(b: Payload) -> (r: Result<Self, Payload>) {
        match b {
            Payload::Buildings(buildings) => Ok(Ok(buildings)),
            Payload::Failure(failure) => Ok(Err(failure)),
            other => Err(other),
        }
    }
}

/// A payload travels as itself.
impl AnyClone for Payload {
    open spec fn boxed(&self) -> PayloadView {
        self@
    }

    open spec fn carried_by(p: PayloadView) -> bool {
        true
    }

    fn clone_box(&self) -> (b: Payload) {
        self.clone()
    }

    fn unbox(b: Payload) -> (r: Result<Self, Payload>) {
        Ok(b)
    }
}

} // verus!
