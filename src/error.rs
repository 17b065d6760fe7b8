use vstd::prelude::*;

verus! {

/// The kinds of stored entity that an existence check can miss.
#[derive(Debug, Clone, Copy, PartialEq, Eq, Structural)]
pub enum Entity {
    User,
    Doctor,
    Administrator,
    Department,
    Comment,
    Slot,
    Appointment,
}

/// Every failure that an operation of the core can report.
#[derive(Debug, Clone, Copy, PartialEq, Eq, Structural)]
pub enum CoreError {
    NotFound(Entity),
    AlreadyExists(Entity),
    Unauthenticated,
    SessionExpired,
    WrongPassword,
    InvalidInterval,
    InvalidCapacity,
    InvalidTime,
    InvalidGender,
    SlotConflict,
    SlotFull,
    SlotHasBookings,
    CapacityBelowBooked,
    AlreadyBooked,
    AlreadyFinished,
    AlreadyCanceled,
    NotBooked,
    NotUnfinished,
    StoreUnavailable,
}

/// The message shown to a caller for failure `e`.
pub open spec fn message_of(e: CoreError) -> Seq<char> {
    match e {
        CoreError::NotFound(Entity::User) => "用户不存在"@,
        CoreError::NotFound(Entity::Doctor) => "医生不存在"@,
        CoreError::NotFound(Entity::Administrator) => "管理员不存在"@,
        CoreError::NotFound(Entity::Department) => "科室不存在"@,
        CoreError::NotFound(Entity::Comment) => "评论不存在"@,
        CoreError::NotFound(Entity::Slot) => "时间段不存在"@,
        CoreError::NotFound(Entity::Appointment) => "预约不存在"@,
        CoreError::AlreadyExists(_) => "ID 重复"@,
        CoreError::Unauthenticated => "您还未登录"@,
        CoreError::SessionExpired => "登录已过期"@,
        CoreError::WrongPassword => "密码错误"@,
        CoreError::InvalidInterval => "非法的时间区间"@,
        CoreError::InvalidCapacity => "非法的容量"@,
        CoreError::InvalidTime => "时间格式错误"@,
        CoreError::InvalidGender => "性别格式错误"@,
        CoreError::SlotConflict => "时间区间与已有的冲突"@,
        CoreError::SlotFull => "时间段已满"@,
        CoreError::SlotHasBookings => "不能在已有用户预约的情况下修改或删除时间"@,
        CoreError::CapacityBelowBooked => "容量不能小于已预约人数"@,
        CoreError::AlreadyBooked => "预约已存在"@,
        CoreError::AlreadyFinished => "预约已完成"@,
        CoreError::AlreadyCanceled => "预约已取消"@,
        CoreError::NotBooked => "预约不存在"@,
        CoreError::NotUnfinished => "只能完成未完成的预约"@,
        CoreError::StoreUnavailable => "数据库错误"@,
    }
}

/// An existence check: `Ok` where the entity was found, else `NotFound`.
pub fn assert_exists(found: bool, entity: Entity) -> (r: Result<(), CoreError>)
    ensures
        r == if found {
            Ok::<(), CoreError>(())
        } else {
            Err(CoreError::NotFound(entity))
        },
{
    if found {
        Ok(())
    } else {
        Err(CoreError::NotFound(entity))
    }
}

impl CoreError {
    /// The message shown to a caller for this failure.
    pub fn message(&self) -> (r: &'static str)
        ensures
            r@ == message_of(*self),
    {
        match *self {
            CoreError::NotFound(Entity::User) => "用户不存在",
            CoreError::NotFound(Entity::Doctor) => "医生不存在",
            CoreError::NotFound(Entity::Administrator) => "管理员不存在",
            CoreError::NotFound(Entity::Department) => "科室不存在",
            CoreError::NotFound(Entity::Comment) => "评论不存在",
            CoreError::NotFound(Entity::Slot) => "时间段不存在",
            CoreError::NotFound(Entity::Appointment) => "预约不存在",
            CoreError::AlreadyExists(_) => "ID 重复",
            CoreError::Unauthenticated => "您还未登录",
            CoreError::SessionExpired => "登录已过期",
            CoreError::WrongPassword => "密码错误",
            CoreError::InvalidInterval => "非法的时间区间",
            CoreError::InvalidCapacity => "非法的容量",
            CoreError::InvalidTime => "时间格式错误",
            CoreError::InvalidGender => "性别格式错误",
            CoreError::SlotConflict => "时间区间与已有的冲突",
            CoreError::SlotFull => "时间段已满",
            CoreError::SlotHasBookings => "不能在已有用户预约的情况下修改或删除时间",
            CoreError::CapacityBelowBooked => "容量不能小于已预约人数",
            CoreError::AlreadyBooked => "预约已存在",
            CoreError::AlreadyFinished => "预约已完成",
            CoreError::AlreadyCanceled => "预约已取消",
            CoreError::NotBooked => "预约不存在",
            CoreError::NotUnfinished => "只能完成未完成的预约",
            CoreError::StoreUnavailable => "数据库错误",
        }
    }

    /// Whether the failure is transient, so that the caller may retry.
    pub fn is_transient(&self) -> (r: bool)
        ensures
            r <==> *self == CoreError::StoreUnavailable,
    {
        match *self {
            CoreError::StoreUnavailable => true,
            _ => false,
        }
    }
}

} // verus!
