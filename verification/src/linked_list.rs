use vstd::prelude::*;

verus! {

/// One cell of a [`LinkedList`]: a value and the rest of the chain.
struct Node<T> {
    data: T,
    next: Option<Box<Node<T>>>,
}

/// The values held by a chain of nodes, first node first.
spec fn chain_view<T>(link: Option<Box<Node<T>>>) -> Seq<T>
    decreases link,
{
    match link {
        None => Seq::empty(),
        Some(node) => seq![node.data] + chain_view(node.next),
    }
}

/// A singly linked list that can grow at both ends and shrink at the front.
pub struct LinkedList<T> {
    head: Option<Box<Node<T>>>,
    size: usize,
}

impl<T> View for LinkedList<T> {
    type V = Seq<T>;

    closed spec fn view(&self) -> Seq<T> {
        chain_view(self.head)
    }
}

impl<T> LinkedList<T> {
    /// The stored length always equals the number of nodes.
    #[verifier::type_invariant]
    spec fn size_matches(self) -> bool {
        self.size as int == chain_view(self.head).len()
    }

    /// An empty list.
    pub fn new() -> (list: LinkedList<T>)
        ensures
            list@ == Seq::<T>::empty(),
    {
        LinkedList { head: None, size: 0 }
    }

    /// Puts `data` in front of every value already in the list.
    pub fn push(&mut self, data: T)
        requires
            old(self)@.len() < usize::MAX,
        ensures
            final(self)@ == seq![data] + old(self)@,
            final(self)@ == apply_op(old(self)@, ListOp::Push(data)),
    {
        proof {
            use_type_invariant(&*self);
        }
        let mut taken = LinkedList::new();
        std::mem::swap(self, &mut taken);
        let LinkedList { head, size } = taken;
        let node = Node { data, next: head };
        *self = LinkedList { head: Some(Box::new(node)), size: size + 1 };
    }

    /// Removes the first value and hands it back; `None` when the list is empty.
    pub fn pop(&mut self) -> (popped: Option<T>)
        ensures
            old(self)@.len() == 0 ==> popped is None && final(self)@ == old(self)@,
            old(self)@.len() > 0 ==> popped == Some(old(self)@[0]) && final(self)@
                == old(self)@.drop_first(),
            final(self)@ == apply_op(old(self)@, ListOp::Pop),
    {
        proof {
            use_type_invariant(&*self);
        }
        let mut taken = LinkedList::new();
        std::mem::swap(self, &mut taken);
        let LinkedList { head, size } = taken;
        match head {
            Some(node) => {
                let Node { data, next } = *node;
                assert(chain_view(next) =~= old(self)@.drop_first());
                *self = LinkedList { head: next, size: size - 1 };
                Some(data)
            },
            None => {
                *self = LinkedList { head: None, size };
                None
            },
        }
    }

    /// Takes the next value from the front: the list drains in order.
    pub fn next(&mut self) -> (item: Option<T>)
        ensures
            old(self)@.len() == 0 ==> item is None && final(self)@ == old(self)@,
            old(self)@.len() > 0 ==> item == Some(old(self)@[0]) && final(self)@
                == old(self)@.drop_first(),
            final(self)@ == apply_op(old(self)@, ListOp::Pop),
    {
        self.pop()
    }

    /// Puts `data` after every value already in the list.
    pub fn add(&mut self, data: T)
        requires
            old(self)@.len() < usize::MAX,
        ensures
            final(self)@ == old(self)@.push(data),
            final(self)@ == apply_op(old(self)@, ListOp::Add(data)),
    {
        proof {
            use_type_invariant(&*self);
        }
        let mut taken = LinkedList::new();
        std::mem::swap(self, &mut taken);
        let LinkedList { mut head, size } = taken;
        let ghost orig = chain_view(head);
        let mut cur: &mut Option<Box<Node<T>>> = &mut head;
        let ghost mut i: int = 0;
        loop
            invariant
                0 <= i <= orig.len(),
                chain_view(*cur) == orig.skip(i),
                chain_view(after_borrow(head)) == orig.take(i) + chain_view(*final(cur)),
            ensures
                i == orig.len(),
                chain_view(after_borrow(head)) == orig.take(i) + chain_view(*final(cur)),
            decreases orig.len() - i,
        {
            let ghost before = *cur;
            match cur {
                Some(node) => {
                    assert(before == Some(*node));
                    assert(chain_view(before) == seq![node.data] + chain_view(node.next));
                    assert(orig.skip(i).drop_first() =~= orig.skip(i + 1));
                    assert(orig.skip(i)[0] == orig[i]);
                    assert(orig.take(i + 1) =~= orig.take(i).push(node.data));
                    cur = &mut node.next;
                    proof {
                        i = i + 1;
                    }
                },
                None => {
                    assert(orig.skip(i).len() == 0);
                    break ;
                },
            }
        }
        let last = Node { data, next: None };
        assert(chain_view(last.next) =~= Seq::<T>::empty());
        *cur = Some(Box::new(last));
        assert(orig.take(i) =~= orig);
        assert(chain_view(*cur) =~= seq![data]);
        *self = LinkedList { head, size: size + 1 };
    }

    /// The first value, if there is one.
    pub fn peek(&self) -> (first: Option<&T>)
        ensures
            self@.len() == 0 ==> first is None,
            self@.len() > 0 ==> first == Some(&self@[0]),
    {
        match &self.head {
            Some(node) => Some(&node.data),
            None => None,
        }
    }

    /// The value at `index` counted from the front. An index past the end is refused with
    /// the message `out of range`; the index one past the last value is left out, since
    /// there is no value to hand out there.
    pub fn get(&self, index: usize) -> (found: Result<Option<&T>, String>)
        requires
            index != self@.len(),
        ensures
            index > self@.len() ==> (found matches Err(e) && e@ == "out of range"@),
            index < self@.len() ==> found == Ok::<Option<&T>, String>(Some(&self@[index as int])),
    {
        proof {
            use_type_invariant(self);
        }
        if index > self.size {
            return Err(String::from_str("out of range"));
        }
        let mut current: &Option<Box<Node<T>>> = &self.head;
        let mut i: usize = 0;
        while i < index
            invariant
                i <= index < self@.len(),
                chain_view(*current) == self@.skip(i as int),
            decreases index - i,
        {
            match current {
                Some(node) => {
                    assert(chain_view(*current) == seq![node.data] + chain_view(node.next));
                    assert(chain_view(node.next) =~= self@.skip(i as int).drop_first());
                    assert(self@.skip(i as int).drop_first() =~= self@.skip(i + 1));
                    current = &node.next;
                },
                None => {
                    return Ok(None);
                },
            }
            i = i + 1;
        }
        match current {
            Some(node) => {
                assert(chain_view(*current) == seq![node.data] + chain_view(node.next));
                assert(self@.skip(index as int)[0] == self@[index as int]);
                Ok(Some(&node.data))
            },
            None => Ok(None),
        }
    }

    /// The number of values in the list.
    pub fn get_size(&self) -> (size: usize)
        ensures
            size == self@.len(),
    {
        proof {
            use_type_invariant(self);
        }
        self.size
    }
}


/// Popping right after a push hands back the pushed value and leaves the list as it was.
pub proof fn law_pop_undoes_push<T>(values: Seq<T>, data: T)
    ensures
        (seq![data] + values).len() > 0,
        (seq![data] + values)[0] == data,
        (seq![data] + values).drop_first() == values,
{
    assert((seq![data] + values).drop_first() =~= values);
}

/// Values put at the back with `add` come out of `pop` in the order they were
/// added, after the values already there.
pub proof fn law_add_then_pop_in_order<T>(values: Seq<T>, data: T)
    ensures
        values.len() == 0 ==> values.push(data)[0] == data && values.push(data).drop_first()
            == values,
        values.len() > 0 ==> values.push(data)[0] == values[0] && values.push(data).drop_first()
            == values.drop_first().push(data),
{
    assert(values.len() == 0 ==> values.push(data).drop_first() =~= values);
    assert(values.len() > 0 ==> values.push(data).drop_first() =~= values.drop_first().push(
        data,
    ));
}

/// After a push, the value that was at index `i` is found at index `i + 1`.
pub proof fn law_get_after_push<T>(values: Seq<T>, data: T, i: int)
    requires
        0 <= i < values.len(),
    ensures
        (seq![data] + values)[i + 1] == values[i],
{
}

/// A change made to a list: `push`, `add`, or `pop` (and `next`, which is `pop`).
pub enum ListOp<T> {
    Push(T),
    Add(T),
    Pop,
}

/// The values of a list after one change.
pub open spec fn apply_op<T>(values: Seq<T>, op: ListOp<T>) -> Seq<T> {
    match op {
        ListOp::Push(data) => seq![data] + values,
        ListOp::Add(data) => values.push(data),
        ListOp::Pop => if values.len() > 0 {
            values.drop_first()
        } else {
            values
        },
    }
}

/// The values of a list after the changes `ops`, in order.
pub open spec fn apply_ops<T>(values: Seq<T>, ops: Seq<ListOp<T>>) -> Seq<T>
    decreases ops.len(),
{
    if ops.len() == 0 {
        values
    } else {
        apply_ops(apply_op(values, ops[0]), ops.drop_first())
    }
}

/// How many of the changes `ops` put a value in.
pub open spec fn inserted_count<T>(ops: Seq<ListOp<T>>) -> nat
    decreases ops.len(),
{
    if ops.len() == 0 {
        0
    } else {
        (if ops[0] is Pop {
            0nat
        } else {
            1nat
        }) + inserted_count(ops.drop_first())
    }
}

/// How many of the changes `ops`, made from `values`, are pops that gave back a value.
pub open spec fn popped_count<T>(values: Seq<T>, ops: Seq<ListOp<T>>) -> nat
    decreases ops.len(),
{
    if ops.len() == 0 {
        0
    } else {
        (if ops[0] is Pop && values.len() > 0 {
            1nat
        } else {
            0nat
        }) + popped_count(apply_op(values, ops[0]), ops.drop_first())
    }
}

/// After any changes the size is the values pushed and added, less the values
/// popped, counted from where the list started.
pub proof fn law_size_counts_changes<T>(values: Seq<T>, ops: Seq<ListOp<T>>)
    ensures
        apply_ops(values, ops).len() == values.len() + inserted_count(ops) - popped_count(
            values,
            ops,
        ),
    decreases ops.len(),
{
    if ops.len() > 0 {
        law_size_counts_changes(apply_op(values, ops[0]), ops.drop_first());
    }
}

/// A value put in with `add` is last, whatever pushes came before it.
pub proof fn law_add_puts_last<T>(values: Seq<T>, data: T)
    ensures
        apply_op(values, ListOp::Add(data)).last() == data,
        apply_op(values, ListOp::Add(data)).drop_last() == values,
{
    assert(apply_op(values, ListOp::Add(data)).drop_last() =~= values);
}

} // verus!
