use std::ops::Deref;
use vstd::prelude::*;

verus! {

/// The number of items of a feed when the request names none.
pub const DEFAULT_SIZE: usize = 20;

/// The largest number of items that a feed may be asked to hold.
pub const MAX_SIZE: usize = 50;

/// The default is a size: it does not exceed the largest size.
pub proof fn lemma_default_within_max()
    ensures
        1 <= DEFAULT_SIZE <= MAX_SIZE,
{
}

/// The number of items that a feed may hold at most: at least one and no
/// more than `MAX_SIZE`.
#[derive(Debug, Copy, Clone, Eq, PartialEq, Structural)]
pub struct Size {
    value: usize,
}

/// Why a number is refused as the size of a feed.
#[derive(Debug, Copy, Clone, Eq, PartialEq, Structural)]
pub enum SizeError {
    /// The number is larger than `MAX_SIZE`.
    ExceedsMaxSize,
    /// The number is zero, which no size can be.
    TryFromInt,
}

impl SizeError {
    /// The message of the error.
    pub open spec fn spec_text(&self) -> Seq<char> {
        match self {
            SizeError::ExceedsMaxSize => "size must not exceed the max size"@,
            SizeError::TryFromInt => "out of range integral type conversion attempted"@,
        }
    }

    /// The message of the error.
    pub fn to_string(&self) -> (message: String)
        ensures
            message@ == self.spec_text(),
    {
        match self {
            SizeError::ExceedsMaxSize => "size must not exceed the max size".to_owned(),
            SizeError::TryFromInt => "out of range integral type conversion attempted".to_owned(),
        }
    }
}

impl View for Size {
    type V = nat;

    closed spec fn view(&self) -> nat {
        self.value as nat
    }
}

impl Size {
    /// The size when the request names none.
    pub const DEFAULT_SIZE: usize = DEFAULT_SIZE;

    /// The largest size.
    pub const MAX_SIZE: usize = MAX_SIZE;

    /// Whether the number lies between one and `MAX_SIZE`.
    #[verifier::type_invariant]
    pub closed spec fn wf(self) -> bool {
        1 <= self.value <= MAX_SIZE
    }

    /// What `try_from` makes of `size`.
    pub open spec fn checked(size: usize) -> Result<nat, SizeError> {
        if size == 0 {
            Err(SizeError::TryFromInt)
        } else if size > MAX_SIZE {
            Err(SizeError::ExceedsMaxSize)
        } else {
            Ok(size as nat)
        }
    }

    /// The size of `size` items: zero is refused, and so is any number
    /// above `MAX_SIZE`.
    pub fn try_from(size: usize) -> (checked: Result<Size, SizeError>)
        ensures
            match checked {
                Ok(s) => Size::checked(size) == Ok::<nat, SizeError>(s@) && s.wf(),
                Err(e) => Size::checked(size) == Err::<nat, SizeError>(e),
            },
    {
        if size == 0 {
            Err(SizeError::TryFromInt)
        } else if size > MAX_SIZE {
            Err(SizeError::ExceedsMaxSize)
        } else {
            Ok(Size { value: size })
        }
    }

    /// The number of items.
    pub fn get(&self) -> (value: usize)
        ensures
            value == self@,
            1 <= value <= MAX_SIZE,
    {
        proof {
            use_type_invariant(self);
        }
        self.value
    }

    /// A number is accepted as a size exactly if it is at least one and at
    /// most fifty; the size of a request that names none is twenty.
    pub proof fn lemma_accepted(size: usize)
        ensures
            Size::checked(size) is Ok <==> 1 <= size <= 50,
            Size::checked(0) == Err::<nat, SizeError>(SizeError::TryFromInt),
            size > 50 ==> Size::checked(size) == Err::<nat, SizeError>(SizeError::ExceedsMaxSize),
            DEFAULT_SIZE == 20,
    {
    }

    /// A valid size lies between one and `MAX_SIZE`.
    pub proof fn lemma_bounds(self)
        requires
            self.wf(),
        ensures
            1 <= self@ <= MAX_SIZE,
    {
    }
}

impl Default for Size {
    fn default() -> (size: Size)
        ensures
            size@ == DEFAULT_SIZE,
            size.wf(),
    {
        Size { value: DEFAULT_SIZE }
    }
}

impl Deref for Size {
    type Target = usize;

    fn deref(&self) -> (value: &usize)
        ensures
            *value == self@,
    {
        &self.value
    }
}

} // verus!
