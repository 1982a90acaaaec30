//! The tri-state permission model.
//!
//! A permission bit is `Unchanged`, `Enabled` or `Disabled`, so a caller can edit
//! some bits of a path's mode without clobbering the rest. `Unchanged` is
//! the identity element of the `overwrite` merge. A full [`Permissions`]
//! value converts to a 9-bit POSIX mode once every bit has been decided.

use vstd::prelude::*;

verus! {

/// The state of one permission bit.
#[derive(Debug, Clone, Copy, PartialEq, Eq, Structural)]
pub enum Permission {
    /// The bit keeps whatever value it currently has.
    Unchanged,
    /// The bit is enabled.
    Enabled,
    /// The bit is disabled.
    Disabled,
}

impl Permission {
    /// The merge of `self` with `other`: `other` wins unless it is
    /// [`Permission::Unchanged`], in which case `self` is kept.
    pub open spec fn overwrite_spec(self, other: Permission) -> Permission {
        match other {
            Permission::Unchanged => self,
            Permission::Enabled => Permission::Enabled,
            Permission::Disabled => Permission::Disabled,
        }
    }

    /// Return a new permission with the other permission applied.
    ///
    /// If the other permission is [`Permission::Unchanged`], then the
    /// original permission is kept.
    pub fn overwrite(&self, other: &Self) -> (r: Self)
        ensures
            r == self.overwrite_spec(*other),
    {
        match other {
            Self::Unchanged => *self,
            Self::Enabled => Self::Enabled,
            Self::Disabled => Self::Disabled,
        }
    }
}

impl Default for Permission {
    fn default() -> (r: Self)
        ensures
            r == Permission::Unchanged,
    {
        Self::Unchanged
    }
}

/// The read, write and execute permission bits of one scope (user, group
/// or other).
#[derive(Debug, Clone, Copy, PartialEq, Eq, Structural)]
pub struct ScopedPermissions {
    /// The read permission.
    pub read: Permission,
    /// The write permission.
    pub write: Permission,
    /// The execute permission.
    pub execute: Permission,
}

impl ScopedPermissions {
    /// Component-wise merge; see [`Permission::overwrite_spec`].
    pub open spec fn overwrite_spec(self, other: ScopedPermissions) -> ScopedPermissions {
        ScopedPermissions {
            read: self.read.overwrite_spec(other.read),
            write: self.write.overwrite_spec(other.write),
            execute: self.execute.overwrite_spec(other.execute),
        }
    }

    /// Return a new permission set with the other permission set applied.
    ///
    /// Each bit of `other` that is [`Permission::Unchanged`] keeps the bit
    /// of `self`.
    pub fn overwrite(&self, other: &Self) -> (r: Self)
        ensures
            r == self.overwrite_spec(*other),
    {
        Self {
            read: self.read.overwrite(&other.read),
            write: self.write.overwrite(&other.write),
            execute: self.execute.overwrite(&other.execute),
        }
    }
}

impl Default for ScopedPermissions {
    fn default() -> (r: Self)
        ensures
            r == ScopedPermissions::unchanged(),
    {
        Self { read: Permission::Unchanged, write: Permission::Unchanged, execute: Permission::Unchanged }
    }
}

impl ScopedPermissions {
    /// The neutral element: every bit unchanged.
    pub open spec fn unchanged() -> ScopedPermissions {
        ScopedPermissions {
            read: Permission::Unchanged,
            write: Permission::Unchanged,
            execute: Permission::Unchanged,
        }
    }
}

/// A full set of permissions: user, group and other scopes, assuming a
/// Unix-like filesystem.
#[derive(Debug, Clone, Copy, PartialEq, Eq, Structural)]
pub struct Permissions {
    /// The user permissions.
    pub user: ScopedPermissions,
    /// The group permissions.
    pub group: ScopedPermissions,
    /// The other permissions.
    pub other: ScopedPermissions,
}

impl Default for Permissions {
    fn default() -> (r: Self)
        ensures
            r == Permissions::unchanged(),
    {
        Self {
            user: ScopedPermissions::default(),
            group: ScopedPermissions::default(),
            other: ScopedPermissions::default(),
        }
    }
}

impl Permissions {
    /// The neutral element: every bit of every scope unchanged.
    pub open spec fn unchanged() -> Permissions {
        Permissions {
            user: ScopedPermissions::unchanged(),
            group: ScopedPermissions::unchanged(),
            other: ScopedPermissions::unchanged(),
        }
    }

    /// `Enabled` when the masked bit of `mode` is on, `Disabled` otherwise.
    pub open spec fn bit_of_mode(mode: u32, mask: u32) -> Permission {
        if mode & mask != 0 {
            Permission::Enabled
        } else {
            Permission::Disabled
        }
    }

    /// The permissions read out of a mode; bits beyond the lower 9 are
    /// ignored, and no component is `Unchanged`.
    pub open spec fn from_mode_spec(mode: u32) -> Permissions {
        Permissions {
            user: ScopedPermissions {
                read: Self::bit_of_mode(mode, 0o400),
                write: Self::bit_of_mode(mode, 0o200),
                execute: Self::bit_of_mode(mode, 0o100),
            },
            group: ScopedPermissions {
                read: Self::bit_of_mode(mode, 0o040),
                write: Self::bit_of_mode(mode, 0o020),
                execute: Self::bit_of_mode(mode, 0o010),
            },
            other: ScopedPermissions {
                read: Self::bit_of_mode(mode, 0o004),
                write: Self::bit_of_mode(mode, 0o002),
                execute: Self::bit_of_mode(mode, 0o001),
            },
        }
    }

    /// Convert a Unix mode to a `Permissions` value.
    ///
    /// Any bit that is not a user, group or other permission bit is
    /// ignored. No component of the result is [`Permission::Unchanged`].
    pub fn from_mode(mode: u32) -> (r: Self)
        ensures
            r == Self::from_mode_spec(mode),
    {
        let user = ScopedPermissions {
            read: if mode & 0o400 != 0 { Permission::Enabled } else { Permission::Disabled },
            write: if mode & 0o200 != 0 { Permission::Enabled } else { Permission::Disabled },
            execute: if mode & 0o100 != 0 { Permission::Enabled } else { Permission::Disabled },
        };
        let group = ScopedPermissions {
            read: if mode & 0o040 != 0 { Permission::Enabled } else { Permission::Disabled },
            write: if mode & 0o020 != 0 { Permission::Enabled } else { Permission::Disabled },
            execute: if mode & 0o010 != 0 { Permission::Enabled } else { Permission::Disabled },
        };
        let other = ScopedPermissions {
            read: if mode & 0o004 != 0 { Permission::Enabled } else { Permission::Disabled },
            write: if mode & 0o002 != 0 { Permission::Enabled } else { Permission::Disabled },
            execute: if mode & 0o001 != 0 { Permission::Enabled } else { Permission::Disabled },
        };

        Permissions { user, group, other }
    }

    /// Whether every one of the nine bits has been decided.
    pub open spec fn is_resolved(self) -> bool {
        &&& !(self.user.read is Unchanged)
        &&& !(self.user.write is Unchanged)
        &&& !(self.user.execute is Unchanged)
        &&& !(self.group.read is Unchanged)
        &&& !(self.group.write is Unchanged)
        &&& !(self.group.execute is Unchanged)
        &&& !(self.other.read is Unchanged)
        &&& !(self.other.write is Unchanged)
        &&& !(self.other.execute is Unchanged)
    }

    /// The mode contribution of one decided bit.
    pub open spec fn mask_of_bit(p: Permission, mask: u32) -> u32 {
        if p is Enabled {
            mask
        } else {
            0
        }
    }

    /// The 9-bit mode of a fully resolved permission set.
    pub open spec fn as_mode_spec(self) -> u32 {
        Self::mask_of_bit(self.user.read, 0o400) | Self::mask_of_bit(self.user.write, 0o200)
            | Self::mask_of_bit(self.user.execute, 0o100) | Self::mask_of_bit(
            self.group.read,
            0o040,
        ) | Self::mask_of_bit(self.group.write, 0o020) | Self::mask_of_bit(
            self.group.execute,
            0o010,
        ) | Self::mask_of_bit(self.other.read, 0o004) | Self::mask_of_bit(self.other.write, 0o002)
            | Self::mask_of_bit(self.other.execute, 0o001)
    }

    /// Convert the permissions to a Unix mode integer.
    ///
    /// The conversion fails if any of the nine bits is still
    /// [`Permission::Unchanged`]: a usable mode needs every bit decided.
    pub fn as_mode(&self) -> (r: Result<u32, crate::error::Error>)
        ensures
            self.is_resolved() <==> r is Ok,
            r is Ok ==> r->Ok_0 == self.as_mode_spec(),
            r is Err ==> r->Err_0 is InvalidPermission,
    {
        let user_read: u32 = match self.user.read {
            Permission::Unchanged => return Err(crate::error::Error::InvalidPermission),
            Permission::Enabled => 0o400,
            Permission::Disabled => 0,
        };
        let user_write: u32 = match self.user.write {
            Permission::Unchanged => return Err(crate::error::Error::InvalidPermission),
            Permission::Enabled => 0o200,
            Permission::Disabled => 0,
        };
        let user_execute: u32 = match self.user.execute {
            Permission::Unchanged => return Err(crate::error::Error::InvalidPermission),
            Permission::Enabled => 0o100,
            Permission::Disabled => 0,
        };
        let group_read: u32 = match self.group.read {
            Permission::Unchanged => return Err(crate::error::Error::InvalidPermission),
            Permission::Enabled => 0o040,
            Permission::Disabled => 0,
        };
        let group_write: u32 = match self.group.write {
            Permission::Unchanged => return Err(crate::error::Error::InvalidPermission),
            Permission::Enabled => 0o020,
            Permission::Disabled => 0,
        };
        let group_execute: u32 = match self.group.execute {
            Permission::Unchanged => return Err(crate::error::Error::InvalidPermission),
            Permission::Enabled => 0o010,
            Permission::Disabled => 0,
        };
        let other_read: u32 = match self.other.read {
            Permission::Unchanged => return Err(crate::error::Error::InvalidPermission),
            Permission::Enabled => 0o004,
            Permission::Disabled => 0,
        };
        let other_write: u32 = match self.other.write {
            Permission::Unchanged => return Err(crate::error::Error::InvalidPermission),
            Permission::Enabled => 0o002,
            Permission::Disabled => 0,
        };
        let other_execute: u32 = match self.other.execute {
            Permission::Unchanged => return Err(crate::error::Error::InvalidPermission),
            Permission::Enabled => 0o001,
            Permission::Disabled => 0,
        };

        Ok(
            user_read | user_write | user_execute | group_read | group_write | group_execute
                | other_read | other_write | other_execute,
        )
    }

    /// Component-wise merge; see [`Permission::overwrite_spec`].
    pub open spec fn overwrite_spec(self, other: Permissions) -> Permissions {
        Permissions {
            user: self.user.overwrite_spec(other.user),
            group: self.group.overwrite_spec(other.group),
            other: self.other.overwrite_spec(other.other),
        }
    }

    /// Return a new permission set with the other permission set applied.
    ///
    /// Each bit of `other` that is [`Permission::Unchanged`] keeps the bit
    /// of `self`.
    pub fn overwrite(&self, other: &Self) -> (r: Self)
        ensures
            r == self.overwrite_spec(*other),
    {
        Self {
            user: self.user.overwrite(&other.user),
            group: self.group.overwrite(&other.group),
            other: self.other.overwrite(&other.other),
        }
    }
}

/// `Permissions::unchanged()` is the identity element of `overwrite`, on
/// both sides: merging with a fully unchanged permission set changes
/// nothing.
pub proof fn lemma_overwrite_identity(p: Permissions)
    ensures
        Permissions::unchanged().overwrite_spec(p) == p,
        p.overwrite_spec(Permissions::unchanged()) == p,
{
}

/// Reading a mode never leaves a bit undecided.
pub proof fn lemma_from_mode_resolved(mode: u32)
    ensures
        Permissions::from_mode_spec(mode).is_resolved(),
{
}

/// Merging keeps every decided bit decided: the merge of two permission
/// sets whose left side is fully resolved is fully resolved.
pub proof fn lemma_overwrite_preserves_resolved(p: Permissions, q: Permissions)
    requires
        p.is_resolved(),
    ensures
        p.overwrite_spec(q).is_resolved(),
{
}

/// A merge whose right side is fully resolved is that right side: every
/// bit of the result comes from `q`.
pub proof fn lemma_overwrite_resolved_right(p: Permissions, q: Permissions)
    requires
        q.is_resolved(),
    ensures
        p.overwrite_spec(q) == q,
{
}

/// The mode of a fully resolved permission set fits in 9 bits.
pub proof fn lemma_as_mode_bounded(p: Permissions)
    ensures
        p.as_mode_spec() < 0o1000,
{
    let a = Permissions::mask_of_bit(p.user.read, 0o400);
    let b = Permissions::mask_of_bit(p.user.write, 0o200);
    let c = Permissions::mask_of_bit(p.user.execute, 0o100);
    let d = Permissions::mask_of_bit(p.group.read, 0o040);
    let e = Permissions::mask_of_bit(p.group.write, 0o020);
    let f = Permissions::mask_of_bit(p.group.execute, 0o010);
    let g = Permissions::mask_of_bit(p.other.read, 0o004);
    let h = Permissions::mask_of_bit(p.other.write, 0o002);
    let i = Permissions::mask_of_bit(p.other.execute, 0o001);
    assert((a | b | c | d | e | f | g | h | i) < 0o1000) by (bit_vector)
        requires
            (a == 0 || a == 0o400) && (b == 0 || b == 0o200) && (c == 0 || c == 0o100) && (d == 0
                || d == 0o040) && (e == 0 || e == 0o020) && (f == 0 || f == 0o010) && (g == 0 || g
                == 0o004) && (h == 0 || h == 0o002) && (i == 0 || i == 0o001),
    ;
}

/// The mode round trip: converting a valid 9-bit mode to permissions and
/// back yields the same mode.
pub proof fn lemma_mode_round_trip(mode: u32)
    requires
        mode < 0o1000,
    ensures
        Permissions::from_mode_spec(mode).as_mode_spec() == mode,
{
    assert(mode & 0o400 == 0 || mode & 0o400 == 0o400) by (bit_vector);
    assert(mode & 0o200 == 0 || mode & 0o200 == 0o200) by (bit_vector);
    assert(mode & 0o100 == 0 || mode & 0o100 == 0o100) by (bit_vector);
    assert(mode & 0o040 == 0 || mode & 0o040 == 0o040) by (bit_vector);
    assert(mode & 0o020 == 0 || mode & 0o020 == 0o020) by (bit_vector);
    assert(mode & 0o010 == 0 || mode & 0o010 == 0o010) by (bit_vector);
    assert(mode & 0o004 == 0 || mode & 0o004 == 0o004) by (bit_vector);
    assert(mode & 0o002 == 0 || mode & 0o002 == 0o002) by (bit_vector);
    assert(mode & 0o001 == 0 || mode & 0o001 == 0o001) by (bit_vector);
    assert((mode & 0o400) | (mode & 0o200) | (mode & 0o100) | (mode & 0o040) | (mode & 0o020) | (
    mode & 0o010) | (mode & 0o004) | (mode & 0o002) | (mode & 0o001) == mode) by (bit_vector)
        requires
            mode < 0o1000,
    ;
}

} // verus!
