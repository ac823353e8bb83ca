//! Robot identity scheme: the red team uses ids 1..=9, the blue team
//! 101..=109 with the same job ordering; 0 and 100 are the team
//! sentinels ("side with no job").

use vstd::prelude::*;

verus! {

#[derive(Debug, Clone, Copy, PartialEq, Eq, Structural)]
pub enum Side {
    Red,
    Blue,
}

#[derive(Debug, Clone, Copy, PartialEq, Eq, Structural)]
pub enum RobotJob {
    Hero,
    Engineer,
    Infantry3,
    Infantry4,
    Infantry5,
    Sentry,
    Drone,
    Dart,
    Radar,
}

pub open spec fn spec_side_from_id(id: u8) -> Option<Side> {
    if id == 0 {
        Some(Side::Red)
    } else if id == 100 {
        Some(Side::Blue)
    } else {
        None
    }
}

impl Side {
    /// The team sentinel ids: 0 is the red side, 100 the blue side.
    pub fn from_id(id: u8) -> (r: Option<Side>)
        ensures
            r == spec_side_from_id(id),
    {
        match id {
            0 => Some(Side::Red),
            100 => Some(Side::Blue),
            _ => None,
        }
    }

    pub fn opposite(&self) -> (r: Side)
        ensures
            r == (match *self {
                Side::Red => Side::Blue,
                Side::Blue => Side::Red,
            }),
    {
        match self {
            Side::Red => Side::Blue,
            Side::Blue => Side::Red,
        }
    }
}

pub open spec fn spec_job_from_id(id: u8) -> Option<RobotJob> {
    match id {
        1 => Some(RobotJob::Hero),
        2 => Some(RobotJob::Engineer),
        3 => Some(RobotJob::Infantry3),
        4 => Some(RobotJob::Infantry4),
        5 => Some(RobotJob::Infantry5),
        6 => Some(RobotJob::Sentry),
        7 => Some(RobotJob::Drone),
        8 => Some(RobotJob::Dart),
        9 => Some(RobotJob::Radar),
        _ => None,
    }
}

pub open spec fn spec_job_to_id(job: RobotJob) -> u8 {
    match job {
        RobotJob::Hero => 1,
        RobotJob::Engineer => 2,
        RobotJob::Infantry3 => 3,
        RobotJob::Infantry4 => 4,
        RobotJob::Infantry5 => 5,
        RobotJob::Sentry => 6,
        RobotJob::Drone => 7,
        RobotJob::Dart => 8,
        RobotJob::Radar => 9,
    }
}

/// The full id scheme: 1..=9 are red jobs, 101..=109 the blue ones;
/// every other id (the sentinels 0 and 100 included) has no job.
pub open spec fn spec_job_from_id_with_side(id: u8) -> Option<(Side, RobotJob)> {
    if id <= 99 {
        match spec_job_from_id(id) {
            Some(job) => Some((Side::Red, job)),
            None => None,
        }
    } else if id <= 199 {
        match spec_job_from_id((id - 100) as u8) {
            Some(job) => Some((Side::Blue, job)),
            None => None,
        }
    } else {
        None
    }
}

pub open spec fn spec_convert_to_id(side: Side, job: RobotJob) -> u8 {
    match side {
        Side::Red => spec_job_to_id(job),
        Side::Blue => (spec_job_to_id(job) + 100) as u8,
    }
}

impl RobotJob {
    pub fn from_id(id: u8) -> (r: Option<RobotJob>)
        ensures
            r == spec_job_from_id(id),
    {
        match id {
            1 => Some(RobotJob::Hero),
            2 => Some(RobotJob::Engineer),
            3 => Some(RobotJob::Infantry3),
            4 => Some(RobotJob::Infantry4),
            5 => Some(RobotJob::Infantry5),
            6 => Some(RobotJob::Sentry),
            7 => Some(RobotJob::Drone),
            8 => Some(RobotJob::Dart),
            9 => Some(RobotJob::Radar),
            _ => None,
        }
    }

    pub fn to_id(&self) -> (r: u8)
        ensures
            r == spec_job_to_id(*self),
    {
        match self {
            RobotJob::Hero => 1,
            RobotJob::Engineer => 2,
            RobotJob::Infantry3 => 3,
            RobotJob::Infantry4 => 4,
            RobotJob::Infantry5 => 5,
            RobotJob::Sentry => 6,
            RobotJob::Drone => 7,
            RobotJob::Dart => 8,
            RobotJob::Radar => 9,
        }
    }

    pub fn from_id_with_side(id: u8) -> (r: Option<(Side, RobotJob)>)
        ensures
            r == spec_job_from_id_with_side(id),
    {
        if id <= 99 {
            match RobotJob::from_id(id) {
                Some(job) => Some((Side::Red, job)),
                None => None,
            }
        } else if id <= 199 {
            match RobotJob::from_id(id - 100) {
                Some(job) => Some((Side::Blue, job)),
                None => None,
            }
        } else {
            None
        }
    }

    pub fn convert_to_id(pair: &(Side, RobotJob)) -> (r: u8)
        ensures
            r == spec_convert_to_id(pair.0, pair.1),
    {
        let (side, job) = pair;
        match side {
            Side::Red => job.to_id(),
            Side::Blue => job.to_id() + 100,
        }
    }
}

/// Law: every id that names a side and a job converts back to itself.
pub proof fn lemma_id_round_trip(id: u8)
    ensures
        spec_job_from_id_with_side(id) matches Some(pair) ==> spec_convert_to_id(
            pair.0,
            pair.1,
        ) == id,
{
}

/// Law: converting a (side, job) pair to an id and back recovers the pair.
pub proof fn lemma_pair_round_trip(side: Side, job: RobotJob)
    ensures
        spec_job_from_id_with_side(spec_convert_to_id(side, job)) == Some((side, job)),
{
}

} // verus!
