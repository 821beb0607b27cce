use vstd::prelude::*;
use crate::types::Type;
use crate::ast::Ident;
use crate::error::CheckError;

verus! {

/// A variable binding: declared type and whether it may be reassigned.
pub struct VarEntry {
    pub name: Ident,
    pub ty: Type,
    pub mutable: bool,
}

/// The binding of a variable as the contracts see it.
pub struct VarBinding {
    pub name: Seq<char>,
    pub ty: Type,
    pub mutable: bool,
}

/// The variables of one function, in order of declaration.
pub struct VarEnv {
    pub entries: Vec<VarEntry>,
}

/// A signature: return type (`Bottom` when none is declared) and parameters.
pub struct FnEntry {
    pub name: Ident,
    pub ret: Type,
    pub params: Vec<Type>,
}

/// A signature as the contracts see it.
pub struct FnSig {
    pub name: Seq<char>,
    pub ret: Type,
    pub params: Seq<Type>,
}

/// The signatures of all functions of a program, built-ins first.
pub struct FunctionTable {
    pub entries: Vec<FnEntry>,
}

pub open spec fn binding_of(e: VarEntry) -> VarBinding {
    VarBinding { name: e.name@, ty: e.ty, mutable: e.mutable }
}

pub open spec fn sig_of_entry(e: FnEntry) -> FnSig {
    FnSig { name: e.name@, ret: e.ret, params: e.params@ }
}

/// The binding of `name`: the latest one made.
pub open spec fn lookup_var(env: Seq<VarBinding>, name: Seq<char>) -> Option<VarBinding>
    decreases env.len(),
{
    if env.len() == 0 {
        None
    } else if env.last().name == name {
        Some(env.last())
    } else {
        lookup_var(env.drop_last(), name)
    }
}

/// The signature of `name`: the latest one inserted.
pub open spec fn lookup_fn(table: Seq<FnSig>, name: Seq<char>) -> Option<FnSig>
    decreases table.len(),
{
    if table.len() == 0 {
        None
    } else if table.last().name == name {
        Some(table.last())
    } else {
        lookup_fn(table.drop_last(), name)
    }
}

impl View for VarEnv {
    type V = Seq<VarBinding>;

    open spec fn view(&self) -> Seq<VarBinding> {
        self.entries@.map_values(|e: VarEntry| binding_of(e))
    }
}

impl View for FunctionTable {
    type V = Seq<FnSig>;

    open spec fn view(&self) -> Seq<FnSig> {
        self.entries@.map_values(|e: FnEntry| sig_of_entry(e))
    }
}

impl VarEnv {
    pub fn new() -> (r: VarEnv)
        ensures
            r@ == Seq::<VarBinding>::empty(),
    {
        VarEnv { entries: Vec::new() }
    }

    /// Index of the binding of `name`, if any.
    pub fn lookup(&self, name: &Ident) -> (r: Option<usize>)
        ensures
            match r {
                Some(i) => i < self@.len() && lookup_var(self@, name@) == Some(self@[i as int]),
                None => lookup_var(self@, name@) is None,
            },
    {
        let mut i: usize = self.entries.len();
        assert(self@.subrange(0, i as int) =~= self@);
        while i > 0
            invariant
                i <= self.entries.len(),
                lookup_var(self@.subrange(0, i as int), name@) == lookup_var(self@, name@),
            decreases i,
        {
            assert(self@.subrange(0, i as int).drop_last() =~= self@.subrange(0, i - 1));
            if self.entries[i - 1].name == *name {
                return Some(i - 1);
            }
            i = i - 1;
        }
        None
    }

    /// Adds a binding; it takes precedence over any earlier one of that name.
    pub fn bind(&mut self, name: Ident, ty: Type, mutable: bool)
        ensures
            final(self)@ == old(self)@.push(VarBinding { name: name@, ty, mutable }),
    {
        self.entries.push(VarEntry { name, ty, mutable });
        assert(final(self)@ =~= old(self)@.push(VarBinding { name: name@, ty, mutable }));
    }

    /// Declares a new variable; fails with `DuplicateName` when the name is
    /// already bound.
    pub fn declare(&mut self, name: Ident, ty: Type, mutable: bool) -> (r: Result<(), CheckError>)
        ensures
            lookup_var(old(self)@, name@) is Some ==> r == Err::<(), CheckError>(
                CheckError::DuplicateName(name),
            ) && final(self)@ == old(self)@,
            lookup_var(old(self)@, name@) is None ==> r is Ok && final(self)@ == old(self)@.push(
                VarBinding { name: name@, ty, mutable },
            ),
    {
        if self.lookup(&name).is_some() {
            return Err(CheckError::DuplicateName(name));
        }
        self.bind(name, ty, mutable);
        Ok(())
    }
}

impl FunctionTable {
    pub fn new() -> (r: FunctionTable)
        ensures
            r@ == Seq::<FnSig>::empty(),
    {
        FunctionTable { entries: Vec::new() }
    }

    /// Adds a signature; it takes precedence over any earlier one of that name.
    pub fn add(&mut self, entry: FnEntry)
        ensures
            final(self)@ == old(self)@.push(sig_of_entry(entry)),
    {
        self.entries.push(entry);
        assert(final(self)@ =~= old(self)@.push(sig_of_entry(entry)));
    }

    /// Index of the signature of `name`, if any.
    pub fn lookup(&self, name: &Ident) -> (r: Option<usize>)
        ensures
            match r {
                Some(i) => i < self@.len() && lookup_fn(self@, name@) == Some(self@[i as int]),
                None => lookup_fn(self@, name@) is None,
            },
    {
        let mut i: usize = self.entries.len();
        assert(self@.subrange(0, i as int) =~= self@);
        while i > 0
            invariant
                i <= self.entries.len(),
                lookup_fn(self@.subrange(0, i as int), name@) == lookup_fn(self@, name@),
            decreases i,
        {
            assert(self@.subrange(0, i as int).drop_last() =~= self@.subrange(0, i - 1));
            if self.entries[i - 1].name == *name {
                return Some(i - 1);
            }
            i = i - 1;
        }
        None
    }
}

} // verus!
