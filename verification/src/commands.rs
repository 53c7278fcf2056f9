//! The operations that the host application offers to its callers, as
//! decisions: each takes the engine and plain values, and returns what the
//! host has to do or to answer.

use crate::player::{Player, PlayerError, PlayRequest, SinkCommand, StreamOutcome};
use crate::player::{after_outcome, after_pause, after_request, after_volume, clamp_percent, verdict};
use crate::radios::{get_station_by_uuid, get_stations, lookup, station_directory, station_views};
use crate::radios::Station;
use vstd::prelude::*;

verus! {

/// Why a command failed.
#[derive(Debug)]
pub enum AppError {
    /// No station has the identifier that was asked for; it is given back.
    StationNotFound(String),
    /// The named command failed in the engine, for the given cause.
    Command { name: String, cause: PlayerError },
}

/// The answer to a play command whose stream stands ready.
#[derive(Debug)]
pub struct Played {
    /// What to do to the sink.
    pub command: SinkCommand,
    /// The display name of the station, which the caller is told.
    pub name: String,
}

/// The error for the command called `name` that failed for `cause`.
pub fn command_failed(name: &str, cause: PlayerError) -> (error: AppError)
    ensures
        error matches AppError::Command { name: n, cause: c } && n@ == name@ && c == cause,
{
    AppError::Command { name: name.to_owned(), cause }
}

/// Starts to play the station with the identifier `uuid`. An unknown
/// identifier is an error that leaves the engine as it was. For a known
/// station the engine hands out a session and says what to open.
pub fn play(player: &mut Player, uuid: &str) -> (result: Result<PlayRequest, AppError>)
    ensures
        match lookup(station_directory(), uuid@) {
            None => {
                &&& result matches Err(AppError::StationNotFound(id)) && id@ == uuid@
                &&& final(player)@ == old(player)@
            },
            Some(station) => if old(player)@.newest < u64::MAX {
                &&& result matches Ok(request) && request.session == final(player)@.newest
                    && request.url@ == station.url && request.name@ == station.name
                    && request.request_metadata
                &&& final(player)@ == after_request(old(player)@)
            } else {
                &&& result matches Err(AppError::Command { name, cause }) && name@ == "play"@
                    && cause == PlayerError::SessionsExhausted
                &&& final(player)@ == old(player)@
            },
        },
{
    match get_station_by_uuid(uuid) {
        None => Err(AppError::StationNotFound(uuid.to_owned())),
        Some(station) => match player.play(&station) {
            Ok(request) => Ok(request),
            Err(cause) => Err(command_failed("play", cause)),
        },
    }
}

/// Ends a play command: takes how the attempt of `request` ended, and
/// answers with the command for the sink and the station's name, or with the
/// error. A failed attempt leaves the engine as it was.
pub fn finish_play(player: &mut Player, request: PlayRequest, outcome: StreamOutcome) -> (result:
    Result<Played, AppError>)
    ensures
        final(player)@ == after_outcome(old(player)@, request.session as nat, outcome),
        match verdict(old(player)@, request.session as nat, outcome) {
            Ok(command) => result matches Ok(played) && played.command == command && played.name
                == request.name,
            Err(cause) => result matches Err(AppError::Command { name, cause: c }) && name@
                == "play"@ && c == cause,
        },
{
    match player.finish(request.session, outcome) {
        Ok(command) => Ok(Played { command, name: request.name }),
        Err(cause) => Err(command_failed("play", cause)),
    }
}

/// Pauses playback: the sink is to be stopped, and nothing plays.
pub fn pause(player: &mut Player) -> (command: SinkCommand)
    ensures
        final(player)@ == after_pause(old(player)@),
        command == SinkCommand::Stop,
{
    player.pause()
}

/// Sets the volume, and returns the percentage that was set, which is the
/// one to announce.
pub fn set_volume(player: &mut Player, volume: i64) -> (applied: u8)
    ensures
        final(player)@ == after_volume(old(player)@, volume as int),
        applied == clamp_percent(volume as int),
{
    player.set_volume(volume)
}

/// The volume in percent.
pub fn get_volume(player: &Player) -> (percent: u8)
    ensures
        percent == player@.volume,
        percent <= 100,
{
    player.get_volume()
}

/// The list of stations, in listing order.
pub fn stations() -> (list: Vec<Station>)
    ensures
        station_views(list@) == station_directory(),
{
    get_stations()
}

} // verus!
