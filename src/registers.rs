use vstd::prelude::*;
use crate::cell::Byte;
use crate::error::RizeError;
use crate::text::{chars_of, lower, lower_char, lower_seq};
use crate::word::DSB;

verus! {

pub const N_GENERAL_PURPOSE_REGISTERS: usize = 4;

/// The name under which a register is looked up: the name in ASCII lower
/// case; a three-letter name that starts with `g` is a general-purpose
/// register with a width-section letter, which addresses the same register
/// as its first two letters.
pub open spec fn register_key(name: Seq<char>) -> Seq<char> {
    let l = lower_seq(name);
    if name.len() == 3 && l[0] == 'g' {
        l.take(2)
    } else {
        l
    }
}

/// One named machine register.
#[derive(Debug)]
pub struct Register {
    pub name: String,
    pub byte: Byte,
}

impl Register {
    /// A register of the machine width, holding zero.
    pub fn normal(name: &str) -> (r: Register)
        ensures
            r.name@ == name@,
            r.byte.dsb == DSB::U16(0),
    {
        Register { name: String::from_str(name), byte: Byte::default() }
    }

    /// A one-bit status flag, clear.
    pub fn flag(name: &str) -> (r: Register)
        ensures
            r.name@ == name@,
            r.byte.dsb == DSB::Flag(false),
    {
        Register { name: String::from_str(name), byte: Byte::new(DSB::Flag(false)) }
    }

    pub fn read(&self) -> (r: DSB)
        ensures
            r == self.byte.dsb,
    {
        self.byte.read()
    }

    pub fn write(&mut self, data: DSB)
        ensures
            final(self).byte.dsb == data,
            final(self).name == old(self).name,
    {
        self.byte.write(data);
    }

    /// Adds one, wrapping at the register's width.
    pub fn inc(&mut self)
        ensures
            final(self).byte.dsb == old(self).byte.dsb.with_value(old(self).byte.dsb.value() + 1int),
            final(self).name == old(self).name,
    {
        self.byte.add(DSB::U8(1));
    }
}

/// The register file: registers looked up by name, case-insensitively.
#[derive(Debug)]
pub struct Registers {
    all: Vec<Register>,
}

/// Whether `rs` holds a register named `key`.
pub open spec fn has_name(rs: Seq<Register>, key: Seq<char>) -> bool {
    exists|i: int| 0 <= i < rs.len() && (#[trigger] rs[i]).name@ == key
}

impl Registers {
    /// No two registers share a name, and no name is empty.
    pub closed spec fn wf(&self) -> bool {
        &&& forall|i: int, j: int|
            0 <= i < self.all@.len() && 0 <= j < self.all@.len() && i != j ==> (
            #[trigger] self.all@[i]).name@ != (#[trigger] self.all@[j]).name@
        &&& forall|i: int| 0 <= i < self.all@.len() ==> (#[trigger] self.all@[i]).name@.len() > 0
    }

    /// No register has the empty name.
    pub proof fn lemma_no_empty_name(&self)
        requires
            self.wf(),
        ensures
            !self.view().contains_key(Seq::<char>::empty()),
    {
        if has_name(self.all@, Seq::<char>::empty()) {
            let j = choose|j: int| 0 <= j < self.all@.len() && (#[trigger] self.all@[j]).name@ == Seq::<char>::empty();
            assert(self.all@[j].name@.len() > 0);
        }
    }

    /// The value of each register, by name.
    pub closed spec fn view(&self) -> Map<Seq<char>, DSB> {
        Map::new(
            |k: Seq<char>| has_name(self.all@, k),
            |k: Seq<char>|
                self.all@[choose|i: int| 0 <= i < self.all@.len() && (#[trigger] self.all@[i]).name@ == k].byte.dsb,
        )
    }

    proof fn lemma_slot(&self, i: int)
        requires
            self.wf(),
            0 <= i < self.all@.len(),
        ensures
            self.view().contains_key(self.all@[i].name@),
            self.view()[self.all@[i].name@] == self.all@[i].byte.dsb,
    {
        let k = self.all@[i].name@;
        assert(has_name(self.all@, k));
        let j = choose|j: int| 0 <= j < self.all@.len() && (#[trigger] self.all@[j]).name@ == k;
        assert(self.all@[j].name@ == k);
    }

    /// An empty register file.
    pub fn new() -> (r: Registers)
        ensures
            r.wf(),
            r.view() == Map::<Seq<char>, DSB>::empty(),
    {
        let r = Registers { all: Vec::new() };
        assert(r.view() =~= Map::<Seq<char>, DSB>::empty());
        r
    }

    /// The registers, in the order they were added.
    pub closed spec fn entries(&self) -> Seq<Register> {
        self.all@
    }

    /// All registers, in the order they were added.
    pub fn all(&self) -> (r: &Vec<Register>)
        ensures
            r@ == self.entries(),
    {
        &self.all
    }

    /// Index of the register whose name is exactly `key`.
    fn index_of(&self, key: &Vec<char>) -> (r: Option<usize>)
        requires
            self.wf(),
        ensures
            match r {
                Some(i) => i < self.all@.len() && self.all@[i as int].name@ == key@,
                None => !self.view().contains_key(key@),
            },
    {
        let mut i: usize = 0;
        while i < self.all.len()
            invariant
                i <= self.all@.len(),
                forall|j: int| 0 <= j < i ==> (#[trigger] self.all@[j]).name@ != key@,
            decreases self.all@.len() - i,
        {
            let name = chars_of(self.all[i].name.as_str());
            if same_chars(&name, key) {
                return Some(i);
            }
            i = i + 1;
        }
        None
    }

    /// Adds `register`, replacing one of the same name; a register with an
    /// empty name is not added.
    pub fn insert(&mut self, register: Register)
        requires
            old(self).wf(),
        ensures
            final(self).wf(),
            register.name@.len() > 0 ==> final(self).view() == old(self).view().insert(
                register.name@,
                register.byte.dsb,
            ),
            register.name@.len() == 0 ==> final(self).view() == old(self).view(),
    {
        let key = chars_of(register.name.as_str());
        if key.len() == 0 {
            return;
        }
        let ghost k = register.name@;
        let ghost v = register.byte.dsb;
        match self.index_of(&key) {
            Some(i) => {
                self.all.set(i, register);
                proof {
                    self.lemma_set_preserves(*old(self), i as int, k, v);
                }
            },
            None => {
                self.all.push(register);
                proof {
                    let n = old(self).all@.len();
                    assert forall|j: int| 0 <= j < n implies (#[trigger] self.all@[j]).name@ != k by {
                        if self.all@[j].name@ == k {
                            assert(has_name(old(self).all@, k));
                        }
                    }
                    assert forall|a: int, b: int|
                        0 <= a < self.all@.len() && 0 <= b < self.all@.len() && a != b implies (
                        #[trigger] self.all@[a]).name@ != (#[trigger] self.all@[b]).name@ by {
                        if a < n && b < n {
                            assert(old(self).all@[a] == self.all@[a]);
                            assert(old(self).all@[b] == self.all@[b]);
                        }
                    }
                    assert forall|key2: Seq<char>| #[trigger]
                        self.view().contains_key(key2) == old(self).view().insert(
                            k,
                            v,
                        ).contains_key(key2) by {
                        if key2 == k {
                            assert(self.all@[n as int].name@ == k);
                            assert(has_name(self.all@, k));
                        } else if has_name(self.all@, key2) {
                            let j = choose|j: int| 0 <= j < self.all@.len() && (#[trigger] self.all@[j]).name@ == key2;
                            assert(j < n);
                            assert(old(self).all@[j] == self.all@[j]);
                            assert(has_name(old(self).all@, key2));
                        }
                        if has_name(old(self).all@, key2) {
                            let j = choose|j: int| 0 <= j < old(self).all@.len() && (#[trigger] old(self).all@[j]).name@ == key2;
                            assert(old(self).all@[j] == self.all@[j]);
                        }
                    }
                    assert forall|key2: Seq<char>| #[trigger] self.view().contains_key(key2) implies self.view()[key2]
                        == old(self).view().insert(k, v)[key2] by {
                        let j = choose|j: int| 0 <= j < self.all@.len() && (#[trigger] self.all@[j]).name@ == key2;
                        self.lemma_slot(j);
                        if j < n {
                            assert(old(self).all@[j] == self.all@[j]);
                            old(self).lemma_slot(j);
                        }
                    }
                    assert(self.view() =~= old(self).view().insert(k, v));
                }
            },
        }
    }

    /// Replacing the register at `i` with one of the same name changes only
    /// that name's value.
    proof fn lemma_set_preserves(&self, before: Registers, i: int, k: Seq<char>, v: DSB)
        requires
            before.wf(),
            0 <= i < before.all@.len(),
            before.all@[i].name@ == k,
            self.all@ == before.all@.update(i, self.all@[i]),
            self.all@[i].name@ == k,
            self.all@[i].byte.dsb == v,
        ensures
            self.wf(),
            self.view() == before.view().insert(k, v),
    {
        assert forall|a: int, b: int|
            0 <= a < self.all@.len() && 0 <= b < self.all@.len() && a != b implies (
            #[trigger] self.all@[a]).name@ != (#[trigger] self.all@[b]).name@ by {
            assert(self.all@[a].name@ == before.all@[a].name@);
            assert(self.all@[b].name@ == before.all@[b].name@);
        }
        assert forall|key2: Seq<char>| #[trigger]
            self.view().contains_key(key2) == before.view().insert(k, v).contains_key(key2) by {
            if has_name(self.all@, key2) {
                let j = choose|j: int| 0 <= j < self.all@.len() && (#[trigger] self.all@[j]).name@ == key2;
                assert(before.all@[j].name@ == key2);
            }
            if has_name(before.all@, key2) {
                let j = choose|j: int| 0 <= j < before.all@.len() && (#[trigger] before.all@[j]).name@ == key2;
                assert(self.all@[j].name@ == key2);
            }
        }
        assert forall|key2: Seq<char>| #[trigger] self.view().contains_key(key2) implies self.view()[key2]
            == before.view().insert(k, v)[key2] by {
            let j = choose|j: int| 0 <= j < self.all@.len() && (#[trigger] self.all@[j]).name@ == key2;
            self.lemma_slot(j);
            if j != i {
                assert(before.all@[j] == self.all@[j]);
                before.lemma_slot(j);
            }
        }
        assert(self.view() =~= before.view().insert(k, v));
    }

    /// The register that `name` addresses (see `register_key`), if any.
    pub fn get(&self, name: &str) -> (r: Option<&Register>)
        requires
            self.wf(),
        ensures
            self.view().contains_key(register_key(name@)) <==> r is Some,
            name@.len() == 0 ==> r is None,
            r is Some ==> r->Some_0.name@ == register_key(name@) && r->Some_0.byte.dsb
                == self.view()[register_key(name@)],
    {
        let key = key_of(name);
        proof {
            self.lemma_no_empty_name();
            if name@.len() == 0 {
                assert(register_key(name@) =~= Seq::<char>::empty());
            }
        }
        match self.index_of(&key) {
            Some(i) => {
                proof {
                    self.lemma_slot(i as int);
                }
                Some(&self.all[i])
            },
            None => None,
        }
    }

    /// The value of the register that `name` addresses, if any.
    pub fn read(&self, name: &str) -> (r: Option<DSB>)
        requires
            self.wf(),
        ensures
            r == (if self.view().contains_key(register_key(name@)) {
                Some(self.view()[register_key(name@)])
            } else {
                None::<DSB>
            }),
            name@.len() == 0 ==> r is None,
    {
        match self.get(name) {
            Some(reg) => Some(reg.read()),
            None => None,
        }
    }

    /// Stores `data` in the register that `name` addresses; a name that
    /// addresses no register is a register-write error and changes nothing.
    pub fn write(&mut self, name: &str, data: DSB) -> (r: Result<(), RizeError>)
        requires
            old(self).wf(),
        ensures
            final(self).wf(),
            old(self).view().contains_key(register_key(name@)) <==> r is Ok,
            r is Ok ==> final(self).view() == old(self).view().insert(register_key(name@), data),
            r is Err ==> r->Err_0.type_ is RegisterWrite && final(self).view() == old(self).view(),
            name@.len() == 0 ==> r is Err,
    {
        let key = key_of(name);
        proof {
            self.lemma_no_empty_name();
            if name@.len() == 0 {
                assert(register_key(name@) =~= Seq::<char>::empty());
            }
        }
        match self.index_of(&key) {
            Some(i) => {
                let reg = Register { name: self.all[i].name.clone(), byte: Byte::new(data) };
                self.all.set(i, reg);
                proof {
                    self.lemma_set_preserves(*old(self), i as int, key@, data);
                }
                Ok(())
            },
            None => Err(RizeError::register_write("no register of that name")),
        }
    }
}

impl Registers {
    /// The value of the register named exactly `key`, if any.
    pub fn read_key(&self, key: &Vec<char>) -> (r: Option<DSB>)
        requires
            self.wf(),
        ensures
            r == (if self.view().contains_key(key@) {
                Some(self.view()[key@])
            } else {
                None::<DSB>
            }),
    {
        match self.index_of(key) {
            Some(i) => {
                proof {
                    self.lemma_slot(i as int);
                }
                Some(self.all[i].read())
            },
            None => None,
        }
    }

    /// Stores `data` in the register named exactly `key`; a missing name is
    /// a register-write error and changes nothing.
    pub fn write_key(&mut self, key: &Vec<char>, data: DSB) -> (r: Result<(), RizeError>)
        requires
            old(self).wf(),
        ensures
            final(self).wf(),
            old(self).view().contains_key(key@) <==> r is Ok,
            r is Ok ==> final(self).view() == old(self).view().insert(key@, data),
            r is Err ==> r->Err_0.type_ is RegisterWrite && final(self).view() == old(self).view(),
    {
        match self.index_of(key) {
            Some(i) => {
                let reg = Register { name: self.all[i].name.clone(), byte: Byte::new(data) };
                self.all.set(i, reg);
                proof {
                    self.lemma_set_preserves(*old(self), i as int, key@, data);
                }
                Ok(())
            },
            None => Err(RizeError::register_write("no register of that name")),
        }
    }
}

/// The program counter's name.
pub open spec fn pc_key() -> Seq<char> {
    seq!['p', 'c']
}

/// The memory-address register's name.
pub open spec fn mar_key() -> Seq<char> {
    seq!['m', 'a', 'r']
}

/// The memory-data register's name.
pub open spec fn mdr_key() -> Seq<char> {
    seq!['m', 'd', 'r']
}

/// The zero flag's name.
pub open spec fn zero_flag_key() -> Seq<char> {
    seq!['f', 'z']
}

/// The negative flag's name.
pub open spec fn negative_flag_key() -> Seq<char> {
    seq!['f', 'n']
}

/// The carry flag's name.
pub open spec fn carry_flag_key() -> Seq<char> {
    seq!['f', 'c']
}

/// The overflow flag's name.
pub open spec fn overflow_flag_key() -> Seq<char> {
    seq!['f', 'o']
}

/// The registers that every instruction may rely on: program counter,
/// memory-address and memory-data registers, and the four status flags.
pub open spec fn has_core_registers(m: Map<Seq<char>, DSB>) -> bool {
    &&& m.contains_key(pc_key())
    &&& m.contains_key(mar_key())
    &&& m.contains_key(mdr_key())
    &&& m.contains_key(zero_flag_key())
    &&& m.contains_key(negative_flag_key())
    &&& m.contains_key(carry_flag_key())
    &&& m.contains_key(overflow_flag_key())
}

pub fn pc_name() -> (r: Vec<char>)
    ensures
        r@ == pc_key(),
{
    vec!['p', 'c']
}

pub fn mar_name() -> (r: Vec<char>)
    ensures
        r@ == mar_key(),
{
    vec!['m', 'a', 'r']
}

pub fn mdr_name() -> (r: Vec<char>)
    ensures
        r@ == mdr_key(),
{
    vec!['m', 'd', 'r']
}

pub fn zero_flag_name() -> (r: Vec<char>)
    ensures
        r@ == zero_flag_key(),
{
    vec!['f', 'z']
}

pub fn negative_flag_name() -> (r: Vec<char>)
    ensures
        r@ == negative_flag_key(),
{
    vec!['f', 'n']
}

pub fn carry_flag_name() -> (r: Vec<char>)
    ensures
        r@ == carry_flag_key(),
{
    vec!['f', 'c']
}

pub fn overflow_flag_name() -> (r: Vec<char>)
    ensures
        r@ == overflow_flag_key(),
{
    vec!['f', 'o']
}

/// The characters of `register_key(name)`.
fn key_of(name: &str) -> (r: Vec<char>)
    ensures
        r@ == register_key(name@),
{
    let cs = chars_of(name);
    let n = cs.len();
    let mut out: Vec<char> = Vec::new();
    let mut i: usize = 0;
    while i < n
        invariant
            n == cs@.len(),
            cs@ == name@,
            i <= n,
            out@ == lower_seq(cs@).take(i as int),
        decreases n - i,
    {
        out.push(lower_char(cs[i]));
        i = i + 1;
        assert(out@ =~= lower_seq(cs@).take(i as int));
    }
    assert(out@ =~= lower_seq(cs@));
    if n == 3 && out[0] == 'g' {
        out.pop();
        assert(out@ =~= lower_seq(cs@).take(2));
    }
    out
}

fn same_chars(a: &Vec<char>, b: &Vec<char>) -> (r: bool)
    ensures
        r == (a@ == b@),
{
    if a.len() != b.len() {
        return false;
    }
    let mut i: usize = 0;
    while i < a.len()
        invariant
            a@.len() == b@.len(),
            i <= a@.len(),
            forall|j: int| 0 <= j < i ==> a@[j] == b@[j],
        decreases a@.len() - i,
    {
        if a[i] != b[i] {
            return false;
        }
        i = i + 1;
    }
    assert(a@ =~= b@);
    true
}

} // verus!
